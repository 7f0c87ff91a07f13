//! Compiles declarative descriptions of remote rule-execution requests into
//! encoders that produce the exact nested-tag wire document the rule-execution
//! service expects: a declaration is parsed into a `RuleSpec`, validated
//! against the target record's shape, and turned into a `Rule` whose `to_xml`
//! serializes one record instance.

use vstd::prelude::*;

pub mod diag;
pub mod exec_rule_impl;
pub mod exec_rule_out_types;
pub mod input_struct;
pub mod kw;
pub mod num_text;
pub mod rule;
pub mod rule_input;
pub mod rule_param;
pub mod rule_param_type;
pub mod serialize;
pub mod write_utils;

pub use exec_rule_out_types::OutputType;
pub use rule_param_type::ParamType;

verus! {

/// The outcome of processing one declaration against its target record:
/// the validated rule, or a diagnostic — and the record handed back
/// unmodified either way, so one bad declaration costs only its own rule.
pub struct RuleOutcome {
    pub rule: Option<serialize::Rule>,
    pub diag: Option<diag::Diag>,
    pub record: rule::TargetRecord,
}

/// Process one declaration: parse it, validate it against the target record,
/// and generate the rule. Exactly one of `rule` and `diag` is filled, and the
/// record passes through unmodified.
pub fn rule(toks: &Vec<rule_input::DeclTok>, record: rule::TargetRecord) -> (r: RuleOutcome)
    ensures
        r.record == record,
        ({
            let m = match rule_input::spec_parse_decl(rule_input::toks_view(toks@)) {
                Err(d) => Err(d),
                Ok(sm) => rule::spec_generate(sm, record@),
            };
            match m {
                Ok(rm) => r.diag is None && (r.rule matches Some(rr) && rr@ == rm),
                Err(dm) => r.rule is None && (r.diag matches Some(d) && d@ == dm),
            }
        }),
{
    match rule_input::RuleSpec::parse(toks) {
        Err(d) => RuleOutcome { rule: None, diag: Some(d), record },
        Ok(spec) => match serialize::Rule::try_new(&spec, &record) {
            Err(d) => RuleOutcome { rule: None, diag: Some(d), record },
            Ok(rl) => RuleOutcome { rule: Some(rl), diag: None, record },
        },
    }
}

} // verus!
