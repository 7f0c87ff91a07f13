//! The registered output types: the closed set of response-decoding types a
//! declaration may name, each with its keyword spelling and its wire name.

use vstd::prelude::*;

verus! {

/// A registered output type for a rule's response.
#[derive(Clone, Copy, PartialEq, Eq, Structural, Debug)]
pub enum OutputType {
    ExecRuleOut,
}

/// The wire name an output type is announced under in `outParamDesc`.
pub open spec fn spec_output_wire(t: OutputType) -> Seq<char> {
    match t {
        OutputType::ExecRuleOut => "execRuleOut"@,
    }
}

/// The registered-output-types table: which declaration identifiers name an
/// output type. An identifier outside the table has no entry.
pub open spec fn spec_output_type_of(s: Seq<char>) -> Option<OutputType> {
    if s == "ExecRuleOut"@ {
        Some(OutputType::ExecRuleOut)
    } else {
        None
    }
}

impl OutputType {
    /// The keyword spelling of this output type.
    pub fn as_str(&self) -> (r: &'static str)
        ensures
            r@ == "exec_rule_out"@,
    {
        match self {
            OutputType::ExecRuleOut => "exec_rule_out",
        }
    }

    /// The wire name this output type is announced under.
    pub fn wire_name(&self) -> (r: &'static str)
        ensures
            r@ == spec_output_wire(*self),
    {
        match self {
            OutputType::ExecRuleOut => "execRuleOut",
        }
    }
}

/// Look an output identifier up in the registered-output-types table.
pub fn output_type_of(s: &String) -> (r: Option<OutputType>)
    ensures
        r == spec_output_type_of(s@),
{
    if crate::kw::is_keyword(s, "ExecRuleOut") {
        Some(OutputType::ExecRuleOut)
    } else {
        None
    }
}

/// Every registered output type has a non-empty wire name.
pub proof fn lemma_output_table_complete(t: OutputType)
    ensures
        spec_output_wire(t).len() > 0,
{
    reveal_strlit("execRuleOut");
}

} // verus!
