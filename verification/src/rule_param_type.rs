//! The closed set of abstract parameter types and the type mapper: each
//! abstract type is mapped to its wire sub-format name and to the host
//! scalar type it is represented by.

use vstd::prelude::*;

verus! {

/// The closed set of abstract parameter types a rule declaration may use.
#[derive(Clone, Copy, PartialEq, Eq, Structural, Debug)]
pub enum ParamType {
    String,
    Byte,
    Int16,
    Int32,
    Double,
}

/// The wire sub-format name of a parameter type.
pub open spec fn spec_wire_format(t: ParamType) -> Seq<char> {
    match t {
        ParamType::String => "STR_PI"@,
        ParamType::Byte => "CHAR_PI"@,
        ParamType::Int16 => "INT16_PI"@,
        ParamType::Int32 => "INT_PI"@,
        ParamType::Double => "DOUBLE_PI"@,
    }
}

/// The host scalar type a parameter type is represented by.
pub open spec fn spec_host_scalar(t: ParamType) -> Seq<char> {
    match t {
        ParamType::String => "String"@,
        ParamType::Byte => "u8"@,
        ParamType::Int16 => "i16"@,
        ParamType::Int32 => "i32"@,
        ParamType::Double => "f64"@,
    }
}

impl ParamType {
    /// The wire sub-format this parameter type is encoded with.
    pub fn wire_format(&self) -> (r: &'static str)
        ensures
            r@ == spec_wire_format(*self),
    {
        match self {
            ParamType::String => "STR_PI",
            ParamType::Byte => "CHAR_PI",
            ParamType::Int16 => "INT16_PI",
            ParamType::Int32 => "INT_PI",
            ParamType::Double => "DOUBLE_PI",
        }
    }

    /// The name of the host scalar type that carries a value of this
    /// parameter type.
    pub fn host_scalar(&self) -> (r: &'static str)
        ensures
            r@ == spec_host_scalar(*self),
    {
        match self {
            ParamType::String => "String",
            ParamType::Byte => "u8",
            ParamType::Int16 => "i16",
            ParamType::Int32 => "i32",
            ParamType::Double => "f64",
        }
    }
}

/// The parameter-type literals the declaration grammar recognizes.
pub open spec fn spec_param_type_of(s: Seq<char>) -> Option<ParamType> {
    if s == "string"@ {
        Some(ParamType::String)
    } else if s == "byte"@ {
        Some(ParamType::Byte)
    } else if s == "int16"@ {
        Some(ParamType::Int16)
    } else if s == "int32"@ {
        Some(ParamType::Int32)
    } else if s == "double"@ {
        Some(ParamType::Double)
    } else {
        None
    }
}

/// Look a parameter-type literal up in the grammar table.
pub fn param_type_of(s: &String) -> (r: Option<ParamType>)
    ensures
        r == spec_param_type_of(s@),
{
    if crate::kw::is_keyword(s, "string") {
        Some(ParamType::String)
    } else if crate::kw::is_keyword(s, "byte") {
        Some(ParamType::Byte)
    } else if crate::kw::is_keyword(s, "int16") {
        Some(ParamType::Int16)
    } else if crate::kw::is_keyword(s, "int32") {
        Some(ParamType::Int32)
    } else if crate::kw::is_keyword(s, "double") {
        Some(ParamType::Double)
    } else {
        None
    }
}

/// The host scalar types the type mapper recognizes on a record field.
pub open spec fn spec_host_type_of(s: Seq<char>) -> Option<ParamType> {
    if s == "String"@ {
        Some(ParamType::String)
    } else if s == "u8"@ {
        Some(ParamType::Byte)
    } else if s == "i16"@ {
        Some(ParamType::Int16)
    } else if s == "i32"@ {
        Some(ParamType::Int32)
    } else if s == "f64"@ {
        Some(ParamType::Double)
    } else {
        None
    }
}

/// Map a record field's host scalar type name to its parameter type.
pub fn host_type_of(s: &String) -> (r: Option<ParamType>)
    ensures
        r == spec_host_type_of(s@),
{
    if crate::kw::is_keyword(s, "String") {
        Some(ParamType::String)
    } else if crate::kw::is_keyword(s, "u8") {
        Some(ParamType::Byte)
    } else if crate::kw::is_keyword(s, "i16") {
        Some(ParamType::Int16)
    } else if crate::kw::is_keyword(s, "i32") {
        Some(ParamType::Int32)
    } else if crate::kw::is_keyword(s, "f64") {
        Some(ParamType::Double)
    } else {
        None
    }
}

/// Every parameter type has a non-empty wire sub-format name and a non-empty
/// host scalar name: the mapping table is total, no variant is unsupported.
pub proof fn lemma_type_table_complete(t: ParamType)
    ensures
        spec_wire_format(t).len() > 0,
        spec_host_scalar(t).len() > 0,
{
    reveal_strlit("STR_PI");
    reveal_strlit("CHAR_PI");
    reveal_strlit("INT16_PI");
    reveal_strlit("INT_PI");
    reveal_strlit("DOUBLE_PI");
    reveal_strlit("String");
    reveal_strlit("u8");
    reveal_strlit("i16");
    reveal_strlit("i32");
    reveal_strlit("f64");
}

} // verus!
