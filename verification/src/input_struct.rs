//! The textual shape of a rule's input record in the host language: one field
//! line per parameter, and the fixed instance fields every rule input
//! carries — the address parts, the optional zone, the optional rule-engine
//! instance name.

use vstd::prelude::*;

use crate::rule_param::{RuleParam, RuleParamModel};
use crate::rule_param_type::spec_host_scalar;

verus! {

/// One field line: `pub <label>: <host scalar>,`.
pub open spec fn spec_field_line(p: RuleParamModel) -> Seq<char> {
    "pub "@ + p.label + ": "@ + spec_host_scalar(p.param_type) + ","@
}

/// The parameter field lines in order, each followed by one space.
pub open spec fn spec_field_lines(ps: Seq<RuleParamModel>) -> Seq<char>
    decreases ps.len(),
{
    if ps.len() == 0 {
        Seq::empty()
    } else {
        spec_field_lines(ps.drop_last()) + spec_field_line(ps.last()) + " "@
    }
}

/// The fixed instance fields every rule input carries.
pub open spec fn spec_instance_fields() -> Seq<char> {
    "pub host_addr: String, pub port: u16, pub rods_zone: Option<String>, pub instance_name: Option<String>, "@
}

/// The whole input-record declaration.
pub open spec fn spec_input_struct(name: Seq<char>, ps: Seq<RuleParamModel>) -> Seq<char> {
    "pub struct "@ + name + " { "@ + spec_field_lines(ps) + spec_instance_fields() + "}"@
}

/// The field lines of a rule's parameters, one per parameter in order.
pub fn expand_fields(params: &Vec<RuleParam>) -> (r: Vec<String>)
    ensures
        r@.len() == params@.len(),
        forall|i: int| 0 <= i < params@.len() ==> r@[i]@ == spec_field_line(#[trigger] params@[i]@),
{
    let mut r: Vec<String> = Vec::new();
    let mut i: usize = 0;
    while i < params.len()
        invariant
            0 <= i <= params@.len(),
            r@.len() == i,
            forall|j: int| 0 <= j < i ==> r@[j]@ == spec_field_line(#[trigger] params@[j]@),
        decreases params@.len() - i,
    {
        let mut line = String::from_str("pub ");
        line.append(params[i].label.as_str());
        line.append(": ");
        line.append(params[i].param_type.host_scalar());
        line.append(",");
        proof {
            assert(line@ =~= spec_field_line(params@[i as int]@));
        }
        r.push(line);
        i = i + 1;
    }
    r
}

/// The declaration text of a rule's input record: its name, the parameter
/// fields, and the fixed instance fields.
pub fn expand_input_struct(name: &String, params: &Vec<RuleParam>) -> (r: String)
    ensures
        r@ == spec_input_struct(name@, params@.map_values(|p: RuleParam| p@)),
{
    let ghost pm = params@.map_values(|p: RuleParam| p@);
    let mut r = String::from_str("pub struct ");
    r.append(name.as_str());
    r.append(" { ");
    let ghost head = r@;
    let mut i: usize = 0;
    while i < params.len()
        invariant
            0 <= i <= params@.len(),
            pm == params@.map_values(|p: RuleParam| p@),
            pm.len() == params@.len(),
            r@ == head + spec_field_lines(pm.take(i as int)),
        decreases params@.len() - i,
    {
        r.append("pub ");
        r.append(params[i].label.as_str());
        r.append(": ");
        r.append(params[i].param_type.host_scalar());
        r.append(",");
        r.append(" ");
        proof {
            assert(pm.take(i as int + 1).drop_last() =~= pm.take(i as int));
            assert(pm.take(i as int + 1).last() == pm[i as int]);
            assert(pm[i as int] == params@[i as int]@);
            assert(r@ =~= head + spec_field_lines(pm.take(i as int + 1)));
        }
        i = i + 1;
    }
    r.append(
        "pub host_addr: String, pub port: u16, pub rods_zone: Option<String>, pub instance_name: Option<String>, ",
    );
    r.append("}");
    proof {
        assert(pm.take(pm.len() as int) =~= pm);
        assert(r@ =~= spec_input_struct(name@, pm));
    }
    r
}

} // verus!
