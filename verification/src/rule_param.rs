//! Declared parameters and their runtime values, and the emission of one
//! `MsParam_PI` block: label, wire sub-format name, and the value in its
//! sub-format element.

use vstd::prelude::*;

use crate::num_text::{i32_to_dec, spec_dec_int, spec_dec_nat, u64_to_dec};
use crate::rule_param_type::{spec_wire_format, ParamType};
use crate::write_utils::{spec_close, spec_open, spec_tag, spec_tag_fmt, write_end, write_start,
    write_tag, write_tag_fmt};

verus! {

/// One declared parameter: its label and its abstract type.
#[derive(Debug)]
pub struct RuleParam {
    pub label: String,
    pub param_type: ParamType,
}

/// The mathematical content of a declared parameter.
pub struct RuleParamModel {
    pub label: Seq<char>,
    pub param_type: ParamType,
}

impl View for RuleParam {
    type V = RuleParamModel;

    open spec fn view(&self) -> RuleParamModel {
        RuleParamModel { label: self.label@, param_type: self.param_type }
    }
}

/// A runtime value for one parameter. A double travels as its host textual
/// rendering, produced where floating point lives; the encoder writes that
/// text verbatim, as it writes every formatted scalar.
#[derive(Debug)]
pub enum ParamValue {
    Str(String),
    Byte(u8),
    Int16(i16),
    Int32(i32),
    Double(String),
}

/// The mathematical content of a parameter value.
pub enum ParamValueModel {
    Str(Seq<char>),
    Byte(u8),
    Int16(i16),
    Int32(i32),
    Double(Seq<char>),
}

impl View for ParamValue {
    type V = ParamValueModel;

    open spec fn view(&self) -> ParamValueModel {
        match self {
            ParamValue::Str(s) => ParamValueModel::Str(s@),
            ParamValue::Byte(b) => ParamValueModel::Byte(*b),
            ParamValue::Int16(i) => ParamValueModel::Int16(*i),
            ParamValue::Int32(i) => ParamValueModel::Int32(*i),
            ParamValue::Double(s) => ParamValueModel::Double(s@),
        }
    }
}

/// Whether a value carries the scalar that a parameter type calls for.
pub open spec fn spec_value_matches(t: ParamType, v: ParamValueModel) -> bool {
    match (t, v) {
        (ParamType::String, ParamValueModel::Str(_)) => true,
        (ParamType::Byte, ParamValueModel::Byte(_)) => true,
        (ParamType::Int16, ParamValueModel::Int16(_)) => true,
        (ParamType::Int32, ParamValueModel::Int32(_)) => true,
        (ParamType::Double, ParamValueModel::Double(_)) => true,
        _ => false,
    }
}

/// Whether a value carries the scalar that a parameter type calls for.
pub fn value_matches(t: &ParamType, v: &ParamValue) -> (r: bool)
    ensures
        r == spec_value_matches(*t, v@),
{
    match (t, v) {
        (ParamType::String, ParamValue::Str(_)) => true,
        (ParamType::Byte, ParamValue::Byte(_)) => true,
        (ParamType::Int16, ParamValue::Int16(_)) => true,
        (ParamType::Int32, ParamValue::Int32(_)) => true,
        (ParamType::Double, ParamValue::Double(_)) => true,
        _ => false,
    }
}

/// The value's sub-format element: the wire sub-format opened, the scalar tag
/// carrying the value's text, the sub-format closed. Text values are escaped
/// on emission; the formatted scalars are written verbatim.
pub open spec fn spec_value_block(v: ParamValueModel) -> Seq<char> {
    match v {
        ParamValueModel::Str(s) => spec_open("STR_PI"@) + spec_tag("myStr"@, s) + spec_close(
            "STR_PI"@,
        ),
        ParamValueModel::Byte(b) => spec_open("CHAR_PI"@) + spec_tag_fmt(
            "myChar"@,
            spec_dec_nat(b as nat),
        ) + spec_close("CHAR_PI"@),
        ParamValueModel::Int16(i) => spec_open("INT16_PI"@) + spec_tag_fmt(
            "myInt"@,
            spec_dec_int(i as int),
        ) + spec_close("INT16_PI"@),
        ParamValueModel::Int32(i) => spec_open("INT_PI"@) + spec_tag_fmt(
            "myInt"@,
            spec_dec_int(i as int),
        ) + spec_close("INT_PI"@),
        ParamValueModel::Double(s) => spec_open("DOUBLE_PI"@) + spec_tag_fmt("myDouble"@, s)
            + spec_close("DOUBLE_PI"@),
    }
}

/// One whole `MsParam_PI` block: the starred label, the wire sub-format name,
/// and the value's sub-format element.
pub open spec fn spec_ms_param(p: RuleParamModel, v: ParamValueModel) -> Seq<char> {
    spec_open("MsParam_PI"@) + spec_tag("label"@, seq!['*'] + p.label) + spec_tag(
        "type"@,
        spec_wire_format(p.param_type),
    ) + spec_value_block(v) + spec_close("MsParam_PI"@)
}

fn write_value_block(value: &ParamValue, sink: &mut String)
    ensures
        final(sink)@ == old(sink)@ + spec_value_block(value@),
{
    let ghost sink0 = sink@;
    match value {
        ParamValue::Str(s) => {
            write_start(sink, "STR_PI");
            write_tag(sink, "myStr", s.as_str());
            write_end(sink, "STR_PI");
        },
        ParamValue::Byte(b) => {
            write_start(sink, "CHAR_PI");
            let t = u64_to_dec(*b as u64);
            write_tag_fmt(sink, "myChar", t.as_str());
            write_end(sink, "CHAR_PI");
        },
        ParamValue::Int16(i) => {
            write_start(sink, "INT16_PI");
            let t = i32_to_dec(*i as i32);
            write_tag_fmt(sink, "myInt", t.as_str());
            write_end(sink, "INT16_PI");
        },
        ParamValue::Int32(i) => {
            write_start(sink, "INT_PI");
            let t = i32_to_dec(*i);
            write_tag_fmt(sink, "myInt", t.as_str());
            write_end(sink, "INT_PI");
        },
        ParamValue::Double(s) => {
            write_start(sink, "DOUBLE_PI");
            write_tag_fmt(sink, "myDouble", s.as_str());
            write_end(sink, "DOUBLE_PI");
        },
    }
    proof {
        assert(sink@ =~= sink0 + spec_value_block(value@));
    }
}

impl RuleParam {
    /// Emit one parameter's `MsParam_PI` block carrying the given value.
    pub fn tokify(param: &RuleParam, value: &ParamValue, sink: &mut String)
        ensures
            final(sink)@ == old(sink)@ + spec_ms_param(param@, value@),
    {
        let ghost sink0 = sink@;
        write_start(sink, "MsParam_PI");
        let mut label = String::from_str("*");
        label.append(param.label.as_str());
        write_tag(sink, "label", label.as_str());
        write_tag(sink, "type", param.param_type.wire_format());
        write_value_block(value, sink);
        write_end(sink, "MsParam_PI");
        proof {
            reveal_strlit("*");
            assert(label@ =~= seq!['*'] + param.label@);
            assert(sink@ =~= sink0 + spec_ms_param(param@, value@));
        }
    }
}

} // verus!
