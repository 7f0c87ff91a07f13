//! The host-language face of a rule: the signature lines its parameters
//! contribute, one per parameter, each mapping the abstract type to the host
//! scalar the type mapper names.

use vstd::prelude::*;

use crate::rule_param::{RuleParam, RuleParamModel};
use crate::rule_param_type::spec_host_scalar;

verus! {

/// One signature line: the parameter's label, its host scalar type, a
/// trailing comma.
pub open spec fn spec_signature_line(p: RuleParamModel) -> Seq<char> {
    p.label + ": "@ + spec_host_scalar(p.param_type) + ","@
}

/// The host-language signature lines of a rule's parameters, in declaration
/// order.
pub fn expand_implementation(params: &Vec<RuleParam>) -> (r: Vec<String>)
    ensures
        r@.len() == params@.len(),
        forall|i: int|
            0 <= i < params@.len() ==> r@[i]@ == spec_signature_line(#[trigger] params@[i]@),
{
    let mut r: Vec<String> = Vec::new();
    let mut i: usize = 0;
    while i < params.len()
        invariant
            0 <= i <= params@.len(),
            r@.len() == i,
            forall|j: int| 0 <= j < i ==> r@[j]@ == spec_signature_line(#[trigger] params@[j]@),
        decreases params@.len() - i,
    {
        let mut line = params[i].label.clone();
        line.append(": ");
        line.append(params[i].param_type.host_scalar());
        line.append(",");
        proof {
            assert(line@ =~= spec_signature_line(params@[i as int]@));
        }
        r.push(line);
        i = i + 1;
    }
    r
}

} // verus!
