//! Positioned diagnostics. Every failure the pipeline can report is one of
//! these kinds; the position is the index of the offending token (the input's
//! length when the input ended too early), and zero for the checks that speak
//! about the target record rather than about a token.

use vstd::prelude::*;

use crate::kw::{spec_keyword, DeclKey};

verus! {

/// What went wrong.
#[derive(Debug, PartialEq, Eq)]
pub enum DiagKind {
    /// A top-level key was expected and something else stood there.
    ExpectedKey,
    /// `label` or `param_type` was expected inside a parameter record.
    ExpectedParamField,
    /// A key's value did not follow its fixed grammar.
    ExpectedValue(DeclKey),
    /// A separating comma was expected.
    ExpectedSeparator,
    /// A key was supplied more than once.
    DuplicateKey(DeclKey),
    /// A mandatory key was never supplied.
    MissingKey(DeclKey),
    /// The target record does not have named fields.
    UnnamedFields,
    /// The body template's placeholders do not match the parameter labels.
    PlaceholderMismatch,
    /// A declared `params` list does not match the record's fields.
    ParamsFieldsMismatch,
    /// A record field's type has no wire-format mapping; carries the field's
    /// name.
    UnmappedFieldType(String),
    /// The declaration names an output type that is not registered.
    UnsupportedOutput,
}

/// The mathematical content of a diagnostic kind.
pub enum DiagKindModel {
    ExpectedKey,
    ExpectedParamField,
    ExpectedValue(DeclKey),
    ExpectedSeparator,
    DuplicateKey(DeclKey),
    MissingKey(DeclKey),
    UnnamedFields,
    PlaceholderMismatch,
    ParamsFieldsMismatch,
    UnmappedFieldType(Seq<char>),
    UnsupportedOutput,
}

impl View for DiagKind {
    type V = DiagKindModel;

    open spec fn view(&self) -> DiagKindModel {
        match self {
            DiagKind::ExpectedKey => DiagKindModel::ExpectedKey,
            DiagKind::ExpectedParamField => DiagKindModel::ExpectedParamField,
            DiagKind::ExpectedValue(k) => DiagKindModel::ExpectedValue(*k),
            DiagKind::ExpectedSeparator => DiagKindModel::ExpectedSeparator,
            DiagKind::DuplicateKey(k) => DiagKindModel::DuplicateKey(*k),
            DiagKind::MissingKey(k) => DiagKindModel::MissingKey(*k),
            DiagKind::UnnamedFields => DiagKindModel::UnnamedFields,
            DiagKind::PlaceholderMismatch => DiagKindModel::PlaceholderMismatch,
            DiagKind::ParamsFieldsMismatch => DiagKindModel::ParamsFieldsMismatch,
            DiagKind::UnmappedFieldType(f) => DiagKindModel::UnmappedFieldType(f@),
            DiagKind::UnsupportedOutput => DiagKindModel::UnsupportedOutput,
        }
    }
}

/// One positioned diagnostic.
#[derive(Debug, PartialEq, Eq)]
pub struct Diag {
    pub kind: DiagKind,
    pub pos: usize,
}

/// The mathematical content of a diagnostic.
pub struct DiagModel {
    pub kind: DiagKindModel,
    pub pos: int,
}

impl View for Diag {
    type V = DiagModel;

    open spec fn view(&self) -> DiagModel {
        DiagModel { kind: self.kind@, pos: self.pos as int }
    }
}

/// The fixed grammar a key's value must follow, restated when the value is
/// malformed and when the key is missing.
pub open spec fn spec_value_message(k: DeclKey) -> Seq<char> {
    match k {
        DeclKey::Name => "expected 'name = <string literal>'"@,
        DeclKey::Output => "expected 'output = <identifier>', which must name a registered output type"@,
        DeclKey::Body => "expected 'body = <string literal>', which must be valid rule-language text"@,
        DeclKey::Params => "expected 'params = [{label: <identifier>, param_type: <type>}, ...]'"@,
        DeclKey::Label => "expected 'label: <identifier>'"@,
        DeclKey::ParamType => "expected 'param_type: <type>', one of 'string', 'byte', 'int16', 'int32', 'double'"@,
    }
}

/// The message text of a diagnostic kind.
pub open spec fn spec_message(k: DiagKindModel) -> Seq<char> {
    match k {
        DiagKindModel::ExpectedKey => "expected one of 'name', 'output', 'body', 'params'"@,
        DiagKindModel::ExpectedParamField => "expected 'label' or 'param_type'"@,
        DiagKindModel::ExpectedValue(key) => spec_value_message(key),
        DiagKindModel::ExpectedSeparator => "expected ','"@,
        DiagKindModel::DuplicateKey(key) => "duplicate '"@ + spec_keyword(key) + "' argument"@,
        DiagKindModel::MissingKey(key) => spec_value_message(key),
        DiagKindModel::UnnamedFields => "expected a record with named fields"@,
        DiagKindModel::PlaceholderMismatch => "expected same number of fields as named variables in rule body"@,
        DiagKindModel::ParamsFieldsMismatch => "expected declared 'params' to match the record's named fields"@,
        DiagKindModel::UnmappedFieldType(f) => "field '"@ + f
            + "': only String, Byte, Int16, Int32, Double are currently mapped to rule-language types"@,
        DiagKindModel::UnsupportedOutput => "unsupported output type"@,
    }
}

fn value_message(k: DeclKey) -> (r: &'static str)
    ensures
        r@ == spec_value_message(k),
{
    match k {
        DeclKey::Name => "expected 'name = <string literal>'",
        DeclKey::Output => "expected 'output = <identifier>', which must name a registered output type",
        DeclKey::Body => "expected 'body = <string literal>', which must be valid rule-language text",
        DeclKey::Params => "expected 'params = [{label: <identifier>, param_type: <type>}, ...]'",
        DeclKey::Label => "expected 'label: <identifier>'",
        DeclKey::ParamType => "expected 'param_type: <type>', one of 'string', 'byte', 'int16', 'int32', 'double'",
    }
}

impl Diag {
    /// The diagnostic's message text.
    pub fn message(&self) -> (r: String)
        ensures
            r@ == spec_message(self.kind@),
    {
        match &self.kind {
            DiagKind::ExpectedKey => String::from_str(
                "expected one of 'name', 'output', 'body', 'params'",
            ),
            DiagKind::ExpectedParamField => String::from_str("expected 'label' or 'param_type'"),
            DiagKind::ExpectedValue(key) => String::from_str(value_message(*key)),
            DiagKind::ExpectedSeparator => String::from_str("expected ','"),
            DiagKind::DuplicateKey(key) => {
                let mut m = String::from_str("duplicate '");
                m.append(key.keyword());
                m.append("' argument");
                proof {
                    assert(m@ =~= spec_message(self.kind@));
                }
                m
            },
            DiagKind::MissingKey(key) => String::from_str(value_message(*key)),
            DiagKind::UnnamedFields => String::from_str("expected a record with named fields"),
            DiagKind::PlaceholderMismatch => String::from_str(
                "expected same number of fields as named variables in rule body",
            ),
            DiagKind::ParamsFieldsMismatch => String::from_str(
                "expected declared 'params' to match the record's named fields",
            ),
            DiagKind::UnmappedFieldType(f) => {
                let mut m = String::from_str("field '");
                m.append(f.as_str());
                m.append(
                    "': only String, Byte, Int16, Int32, Double are currently mapped to rule-language types",
                );
                proof {
                    assert(m@ =~= spec_message(self.kind@));
                }
                m
            },
            DiagKind::UnsupportedOutput => String::from_str("unsupported output type"),
        }
    }
}

} // verus!
