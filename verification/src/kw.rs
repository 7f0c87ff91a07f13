//! The keyword table: the fixed vocabulary of recognized declaration keys and
//! the parameter-type literals, together with the text comparison the parser
//! uses to recognize them.

use vstd::prelude::*;

verus! {

/// A recognized declaration key: the four top-level keys and the two keys of
/// a bracketed parameter record.
#[derive(Clone, Copy, PartialEq, Eq, Structural, Debug)]
pub enum DeclKey {
    Name,
    Output,
    Body,
    Params,
    Label,
    ParamType,
}

/// The source spelling of a declaration key.
pub open spec fn spec_keyword(k: DeclKey) -> Seq<char> {
    match k {
        DeclKey::Name => "name"@,
        DeclKey::Output => "output"@,
        DeclKey::Body => "body"@,
        DeclKey::Params => "params"@,
        DeclKey::Label => "label"@,
        DeclKey::ParamType => "param_type"@,
    }
}

impl DeclKey {
    /// The source spelling of this key.
    pub fn keyword(&self) -> (r: &'static str)
        ensures
            r@ == spec_keyword(*self),
    {
        match self {
            DeclKey::Name => "name",
            DeclKey::Output => "output",
            DeclKey::Body => "body",
            DeclKey::Params => "params",
            DeclKey::Label => "label",
            DeclKey::ParamType => "param_type",
        }
    }
}

/// Whether two identifiers spell the same text.
pub fn string_eq(a: &String, b: &String) -> (r: bool)
    ensures
        r == (a@ == b@),
{
    *a == *b
}

/// Whether an identifier spells a given keyword.
pub fn is_keyword(s: &String, kw: &str) -> (r: bool)
    ensures
        r == (s@ == kw@),
{
    let t = String::from_str(kw);
    *s == t
}

} // verus!
