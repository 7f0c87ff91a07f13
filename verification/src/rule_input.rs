//! The declaration parser: from the raw key/value token stream of one
//! declaration to a `RuleSpec`, or to a positioned diagnostic.
//!
//! The grammar is fixed. A declaration is a comma-separated list of entries,
//! a trailing comma allowed:
//!
//! ```text
//! name   = <string literal>
//! output = <identifier>
//! body   = <string literal>
//! params = [ { label: <identifier>, param_type: <type> }, ... ]
//! ```
//!
//! `<type>` is one of `string`, `byte`, `int16`, `int32`, `double`. Each key
//! appears at most once, at either level; a repeated key is a duplicate-key
//! error attributed to the repeated key token, detected after the repeated
//! entry's own value parsed. `name`, `output` and `body` are mandatory, and
//! so are `label` and `param_type` inside a parameter record; `params` is
//! optional.

use vstd::prelude::*;

use crate::diag::{Diag, DiagKind, DiagKindModel, DiagModel};
use crate::kw::{spec_keyword, DeclKey};
use crate::rule_param::{RuleParam, RuleParamModel};
use crate::rule_param_type::{param_type_of, spec_param_type_of, ParamType};

verus! {

/// One token of a declaration.
pub enum DeclTok {
    Ident(String),
    StrLit(String),
    Eq,
    Colon,
    Comma,
    LBracket,
    RBracket,
    LBrace,
    RBrace,
}

/// The mathematical content of a token.
pub enum TokModel {
    Ident(Seq<char>),
    StrLit(Seq<char>),
    Eq,
    Colon,
    Comma,
    LBracket,
    RBracket,
    LBrace,
    RBrace,
}

impl View for DeclTok {
    type V = TokModel;

    open spec fn view(&self) -> TokModel {
        match self {
            DeclTok::Ident(s) => TokModel::Ident(s@),
            DeclTok::StrLit(s) => TokModel::StrLit(s@),
            DeclTok::Eq => TokModel::Eq,
            DeclTok::Colon => TokModel::Colon,
            DeclTok::Comma => TokModel::Comma,
            DeclTok::LBracket => TokModel::LBracket,
            DeclTok::RBracket => TokModel::RBracket,
            DeclTok::LBrace => TokModel::LBrace,
            DeclTok::RBrace => TokModel::RBrace,
        }
    }
}

/// The token stream's mathematical content.
pub open spec fn toks_view(toks: Seq<DeclTok>) -> Seq<TokModel> {
    toks.map_values(|t: DeclTok| t@)
}

/// The parsed, not yet validated content of one declaration.
#[derive(Debug)]
pub struct RuleSpec {
    pub name: String,
    pub output: String,
    pub body: String,
    pub params: Option<Vec<RuleParam>>,
}

/// The mathematical content of a parsed declaration.
pub struct RuleSpecModel {
    pub name: Seq<char>,
    pub output: Seq<char>,
    pub body: Seq<char>,
    pub params: Option<Seq<RuleParamModel>>,
}

impl View for RuleSpec {
    type V = RuleSpecModel;

    open spec fn view(&self) -> RuleSpecModel {
        RuleSpecModel {
            name: self.name@,
            output: self.output@,
            body: self.body@,
            params: match &self.params {
                Some(ps) => Some(ps@.map_values(|p: RuleParam| p@)),
                None => None,
            },
        }
    }
}

/// The parser's accumulated state: which keys have been seen, with their
/// values.
pub struct ParseSt {
    pub name: Option<String>,
    pub output: Option<String>,
    pub body: Option<String>,
    pub params: Option<Vec<RuleParam>>,
}

/// The mathematical content of the parser state.
pub struct ParseStModel {
    pub name: Option<Seq<char>>,
    pub output: Option<Seq<char>>,
    pub body: Option<Seq<char>>,
    pub params: Option<Seq<RuleParamModel>>,
}

impl View for ParseSt {
    type V = ParseStModel;

    open spec fn view(&self) -> ParseStModel {
        ParseStModel {
            name: match &self.name {
                Some(s) => Some(s@),
                None => None,
            },
            output: match &self.output {
                Some(s) => Some(s@),
                None => None,
            },
            body: match &self.body {
                Some(s) => Some(s@),
                None => None,
            },
            params: match &self.params {
                Some(ps) => Some(ps@.map_values(|p: RuleParam| p@)),
                None => None,
            },
        }
    }
}

pub open spec fn spec_err(kind: DiagKindModel, pos: int) -> Result<ParseStModel, DiagModel> {
    Err(DiagModel { kind, pos })
}

/// Parse top-level entries from position `i` onward.
pub open spec fn spec_parse_top(toks: Seq<TokModel>, i: int, st: ParseStModel) -> Result<
    ParseStModel,
    DiagModel,
>
    decreases toks.len() - i, 0int,
{
    if i >= toks.len() {
        Ok(st)
    } else {
        match toks[i] {
            TokModel::Ident(k) => {
                if k == "name"@ {
                    if i + 1 >= toks.len() || !(toks[i + 1] is Eq) {
                        spec_err(DiagKindModel::ExpectedValue(DeclKey::Name), i + 1)
                    } else if i + 2 >= toks.len() || !(toks[i + 2] is StrLit) {
                        spec_err(DiagKindModel::ExpectedValue(DeclKey::Name), i + 2)
                    } else if st.name is Some {
                        spec_err(DiagKindModel::DuplicateKey(DeclKey::Name), i)
                    } else {
                        spec_parse_sep_top(
                            toks,
                            i + 3,
                            ParseStModel { name: Some(toks[i + 2]->StrLit_0), ..st },
                        )
                    }
                } else if k == "output"@ {
                    if i + 1 >= toks.len() || !(toks[i + 1] is Eq) {
                        spec_err(DiagKindModel::ExpectedValue(DeclKey::Output), i + 1)
                    } else if i + 2 >= toks.len() || !(toks[i + 2] is Ident) {
                        spec_err(DiagKindModel::ExpectedValue(DeclKey::Output), i + 2)
                    } else if st.output is Some {
                        spec_err(DiagKindModel::DuplicateKey(DeclKey::Output), i)
                    } else {
                        spec_parse_sep_top(
                            toks,
                            i + 3,
                            ParseStModel { output: Some(toks[i + 2]->Ident_0), ..st },
                        )
                    }
                } else if k == "body"@ {
                    if i + 1 >= toks.len() || !(toks[i + 1] is Eq) {
                        spec_err(DiagKindModel::ExpectedValue(DeclKey::Body), i + 1)
                    } else if i + 2 >= toks.len() || !(toks[i + 2] is StrLit) {
                        spec_err(DiagKindModel::ExpectedValue(DeclKey::Body), i + 2)
                    } else if st.body is Some {
                        spec_err(DiagKindModel::DuplicateKey(DeclKey::Body), i)
                    } else {
                        spec_parse_sep_top(
                            toks,
                            i + 3,
                            ParseStModel { body: Some(toks[i + 2]->StrLit_0), ..st },
                        )
                    }
                } else if k == "params"@ {
                    if i + 1 >= toks.len() || !(toks[i + 1] is Eq) {
                        spec_err(DiagKindModel::ExpectedValue(DeclKey::Params), i + 1)
                    } else if i + 2 >= toks.len() || !(toks[i + 2] is LBracket) {
                        spec_err(DiagKindModel::ExpectedValue(DeclKey::Params), i + 2)
                    } else if st.params is Some {
                        spec_err(DiagKindModel::DuplicateKey(DeclKey::Params), i)
                    } else {
                        spec_parse_list(toks, i + 3, st, Seq::empty())
                    }
                } else {
                    spec_err(DiagKindModel::ExpectedKey, i)
                }
            },
            _ => spec_err(DiagKindModel::ExpectedKey, i),
        }
    }
}

/// After a top-level entry: the end of input, or a comma and further entries.
pub open spec fn spec_parse_sep_top(toks: Seq<TokModel>, i: int, st: ParseStModel) -> Result<
    ParseStModel,
    DiagModel,
>
    decreases toks.len() - i, 1int,
{
    if i >= toks.len() {
        Ok(st)
    } else if toks[i] is Comma {
        spec_parse_top(toks, i + 1, st)
    } else {
        spec_err(DiagKindModel::ExpectedSeparator, i)
    }
}

/// Inside a bracketed `params` list, before a parameter record or the closing
/// bracket.
pub open spec fn spec_parse_list(
    toks: Seq<TokModel>,
    i: int,
    st: ParseStModel,
    acc: Seq<RuleParamModel>,
) -> Result<ParseStModel, DiagModel>
    decreases toks.len() - i, 0int,
{
    if i >= toks.len() {
        spec_err(DiagKindModel::ExpectedValue(DeclKey::Params), i)
    } else if toks[i] is RBracket {
        spec_parse_sep_top(toks, i + 1, ParseStModel { params: Some(acc), ..st })
    } else if toks[i] is LBrace {
        spec_parse_record(toks, i + 1, st, acc, None, None)
    } else {
        spec_err(DiagKindModel::ExpectedValue(DeclKey::Params), i)
    }
}

/// Inside a brace-delimited parameter record, before a field or the closing
/// brace.
pub open spec fn spec_parse_record(
    toks: Seq<TokModel>,
    i: int,
    st: ParseStModel,
    acc: Seq<RuleParamModel>,
    lab: Option<Seq<char>>,
    pt: Option<ParamType>,
) -> Result<ParseStModel, DiagModel>
    decreases toks.len() - i, 0int,
{
    if i >= toks.len() {
        spec_err(DiagKindModel::ExpectedParamField, i)
    } else if toks[i] is RBrace {
        if lab is None {
            spec_err(DiagKindModel::MissingKey(DeclKey::Label), i)
        } else if pt is None {
            spec_err(DiagKindModel::MissingKey(DeclKey::ParamType), i)
        } else {
            let p = RuleParamModel { label: lab->0, param_type: pt->0 };
            if i + 1 >= toks.len() {
                spec_err(DiagKindModel::ExpectedSeparator, i + 1)
            } else if toks[i + 1] is Comma {
                spec_parse_list(toks, i + 2, st, acc.push(p))
            } else if toks[i + 1] is RBracket {
                spec_parse_list(toks, i + 1, st, acc.push(p))
            } else {
                spec_err(DiagKindModel::ExpectedSeparator, i + 1)
            }
        }
    } else {
        match toks[i] {
            TokModel::Ident(k) => {
                if k == "label"@ {
                    if i + 1 >= toks.len() || !(toks[i + 1] is Colon) {
                        spec_err(DiagKindModel::ExpectedValue(DeclKey::Label), i + 1)
                    } else if i + 2 >= toks.len() || !(toks[i + 2] is Ident) {
                        spec_err(DiagKindModel::ExpectedValue(DeclKey::Label), i + 2)
                    } else if lab is Some {
                        spec_err(DiagKindModel::DuplicateKey(DeclKey::Label), i)
                    } else {
                        spec_parse_sep_record(
                            toks,
                            i + 3,
                            st,
                            acc,
                            Some(toks[i + 2]->Ident_0),
                            pt,
                        )
                    }
                } else if k == "param_type"@ {
                    if i + 1 >= toks.len() || !(toks[i + 1] is Colon) {
                        spec_err(DiagKindModel::ExpectedValue(DeclKey::ParamType), i + 1)
                    } else if i + 2 >= toks.len() || !(toks[i + 2] is Ident)
                        || spec_param_type_of(toks[i + 2]->Ident_0) is None {
                        spec_err(DiagKindModel::ExpectedValue(DeclKey::ParamType), i + 2)
                    } else if pt is Some {
                        spec_err(DiagKindModel::DuplicateKey(DeclKey::ParamType), i)
                    } else {
                        spec_parse_sep_record(
                            toks,
                            i + 3,
                            st,
                            acc,
                            lab,
                            spec_param_type_of(toks[i + 2]->Ident_0),
                        )
                    }
                } else {
                    spec_err(DiagKindModel::ExpectedParamField, i)
                }
            },
            _ => spec_err(DiagKindModel::ExpectedParamField, i),
        }
    }
}

/// After a parameter-record field: a comma, or the record's closing brace.
pub open spec fn spec_parse_sep_record(
    toks: Seq<TokModel>,
    i: int,
    st: ParseStModel,
    acc: Seq<RuleParamModel>,
    lab: Option<Seq<char>>,
    pt: Option<ParamType>,
) -> Result<ParseStModel, DiagModel>
    decreases toks.len() - i, 1int,
{
    if i >= toks.len() {
        spec_err(DiagKindModel::ExpectedSeparator, i)
    } else if toks[i] is Comma {
        spec_parse_record(toks, i + 1, st, acc, lab, pt)
    } else if toks[i] is RBrace {
        spec_parse_record(toks, i, st, acc, lab, pt)
    } else {
        spec_err(DiagKindModel::ExpectedSeparator, i)
    }
}

/// The empty parser state.
pub open spec fn spec_empty_st() -> ParseStModel {
    ParseStModel { name: None, output: None, body: None, params: None }
}

/// Parse one whole declaration: all entries, then the mandatory keys checked
/// in the order `name`, `output`, `body`. A missing-key diagnostic stands at
/// the end of the input.
pub open spec fn spec_parse_decl(toks: Seq<TokModel>) -> Result<RuleSpecModel, DiagModel> {
    match spec_parse_top(toks, 0, spec_empty_st()) {
        Err(d) => Err(d),
        Ok(st) => {
            if st.name is None {
                Err(
                    DiagModel {
                        kind: DiagKindModel::MissingKey(DeclKey::Name),
                        pos: toks.len() as int,
                    },
                )
            } else if st.output is None {
                Err(
                    DiagModel {
                        kind: DiagKindModel::MissingKey(DeclKey::Output),
                        pos: toks.len() as int,
                    },
                )
            } else if st.body is None {
                Err(
                    DiagModel {
                        kind: DiagKindModel::MissingKey(DeclKey::Body),
                        pos: toks.len() as int,
                    },
                )
            } else {
                Ok(
                    RuleSpecModel {
                        name: st.name->0,
                        output: st.output->0,
                        body: st.body->0,
                        params: st.params,
                    },
                )
            }
        },
    }
}

fn tok_is_eq(t: &DeclTok) -> (r: bool)
    ensures
        r == (t@ is Eq),
{
    matches!(t, DeclTok::Eq)
}

fn tok_is_comma(t: &DeclTok) -> (r: bool)
    ensures
        r == (t@ is Comma),
{
    matches!(t, DeclTok::Comma)
}

fn tok_is_lbracket(t: &DeclTok) -> (r: bool)
    ensures
        r == (t@ is LBracket),
{
    matches!(t, DeclTok::LBracket)
}

fn tok_is_rbracket(t: &DeclTok) -> (r: bool)
    ensures
        r == (t@ is RBracket),
{
    matches!(t, DeclTok::RBracket)
}

fn tok_is_lbrace(t: &DeclTok) -> (r: bool)
    ensures
        r == (t@ is LBrace),
{
    matches!(t, DeclTok::LBrace)
}

fn tok_is_rbrace(t: &DeclTok) -> (r: bool)
    ensures
        r == (t@ is RBrace),
{
    matches!(t, DeclTok::RBrace)
}

fn parse_top(toks: &Vec<DeclTok>, i: usize, st: ParseSt) -> (r: Result<ParseSt, Diag>)
    ensures
        ({
            let m = spec_parse_top(toks_view(toks@), i as int, st@);
            &&& (r is Ok <==> m is Ok)
            &&& (r matches Ok(s) ==> m matches Ok(sm) && s@ == sm)
            &&& (r matches Err(d) ==> m matches Err(dm) && d@ == dm)
        }),
    decreases toks@.len() - i, 0int,
{
    proof {
        if (i as int) < toks@.len() {
            assert(toks_view(toks@)[i as int] == toks@[i as int]@);
        }
        if (i as int) + 1 < toks@.len() {
            assert(toks_view(toks@)[i as int + 1] == toks@[i as int + 1]@);
        }
        if (i as int) + 2 < toks@.len() {
            assert(toks_view(toks@)[i as int + 2] == toks@[i as int + 2]@);
        }
    }
    if i >= toks.len() {
        Ok(st)
    } else {
        match &toks[i] {
            DeclTok::Ident(k) => {
                if crate::kw::is_keyword(k, "name") {
                    if i + 1 >= toks.len() || !tok_is_eq(&toks[i + 1]) {
                        Err(Diag { kind: DiagKind::ExpectedValue(DeclKey::Name), pos: i + 1 })
                    } else if i + 2 >= toks.len() {
                        Err(Diag { kind: DiagKind::ExpectedValue(DeclKey::Name), pos: i + 2 })
                    } else {
                        match &toks[i + 2] {
                            DeclTok::StrLit(v) => {
                                if st.name.is_some() {
                                    Err(
                                        Diag {
                                            kind: DiagKind::DuplicateKey(DeclKey::Name),
                                            pos: i,
                                        },
                                    )
                                } else {
                                    parse_sep_top(
                                        toks,
                                        i + 3,
                                        ParseSt {
                                            name: Some(v.clone()),
                                            output: st.output,
                                            body: st.body,
                                            params: st.params,
                                        },
                                    )
                                }
                            },
                            _ => Err(
                                Diag { kind: DiagKind::ExpectedValue(DeclKey::Name), pos: i + 2 },
                            ),
                        }
                    }
                } else if crate::kw::is_keyword(k, "output") {
                    if i + 1 >= toks.len() || !tok_is_eq(&toks[i + 1]) {
                        Err(Diag { kind: DiagKind::ExpectedValue(DeclKey::Output), pos: i + 1 })
                    } else if i + 2 >= toks.len() {
                        Err(Diag { kind: DiagKind::ExpectedValue(DeclKey::Output), pos: i + 2 })
                    } else {
                        match &toks[i + 2] {
                            DeclTok::Ident(v) => {
                                if st.output.is_some() {
                                    Err(
                                        Diag {
                                            kind: DiagKind::DuplicateKey(DeclKey::Output),
                                            pos: i,
                                        },
                                    )
                                } else {
                                    parse_sep_top(
                                        toks,
                                        i + 3,
                                        ParseSt {
                                            name: st.name,
                                            output: Some(v.clone()),
                                            body: st.body,
                                            params: st.params,
                                        },
                                    )
                                }
                            },
                            _ => Err(
                                Diag {
                                    kind: DiagKind::ExpectedValue(DeclKey::Output),
                                    pos: i + 2,
                                },
                            ),
                        }
                    }
                } else if crate::kw::is_keyword(k, "body") {
                    if i + 1 >= toks.len() || !tok_is_eq(&toks[i + 1]) {
                        Err(Diag { kind: DiagKind::ExpectedValue(DeclKey::Body), pos: i + 1 })
                    } else if i + 2 >= toks.len() {
                        Err(Diag { kind: DiagKind::ExpectedValue(DeclKey::Body), pos: i + 2 })
                    } else {
                        match &toks[i + 2] {
                            DeclTok::StrLit(v) => {
                                if st.body.is_some() {
                                    Err(
                                        Diag {
                                            kind: DiagKind::DuplicateKey(DeclKey::Body),
                                            pos: i,
                                        },
                                    )
                                } else {
                                    parse_sep_top(
                                        toks,
                                        i + 3,
                                        ParseSt {
                                            name: st.name,
                                            output: st.output,
                                            body: Some(v.clone()),
                                            params: st.params,
                                        },
                                    )
                                }
                            },
                            _ => Err(
                                Diag { kind: DiagKind::ExpectedValue(DeclKey::Body), pos: i + 2 },
                            ),
                        }
                    }
                } else if crate::kw::is_keyword(k, "params") {
                    if i + 1 >= toks.len() || !tok_is_eq(&toks[i + 1]) {
                        Err(Diag { kind: DiagKind::ExpectedValue(DeclKey::Params), pos: i + 1 })
                    } else if i + 2 >= toks.len() || !tok_is_lbracket(&toks[i + 2]) {
                        Err(Diag { kind: DiagKind::ExpectedValue(DeclKey::Params), pos: i + 2 })
                    } else if st.params.is_some() {
                        Err(Diag { kind: DiagKind::DuplicateKey(DeclKey::Params), pos: i })
                    } else {
                        let acc: Vec<RuleParam> = Vec::new();
                        proof {
                            assert(acc@.map_values(|p: RuleParam| p@)
                                =~= Seq::<RuleParamModel>::empty());
                        }
                        parse_list(toks, i + 3, st, acc)
                    }
                } else {
                    Err(Diag { kind: DiagKind::ExpectedKey, pos: i })
                }
            },
            _ => Err(Diag { kind: DiagKind::ExpectedKey, pos: i }),
        }
    }
}

fn parse_sep_top(toks: &Vec<DeclTok>, i: usize, st: ParseSt) -> (r: Result<ParseSt, Diag>)
    ensures
        ({
            let m = spec_parse_sep_top(toks_view(toks@), i as int, st@);
            &&& (r is Ok <==> m is Ok)
            &&& (r matches Ok(s) ==> m matches Ok(sm) && s@ == sm)
            &&& (r matches Err(d) ==> m matches Err(dm) && d@ == dm)
        }),
    decreases toks@.len() - i, 1int,
{
    proof {
        if (i as int) < toks@.len() {
            assert(toks_view(toks@)[i as int] == toks@[i as int]@);
        }
        if (i as int) + 1 < toks@.len() {
            assert(toks_view(toks@)[i as int + 1] == toks@[i as int + 1]@);
        }
        if (i as int) + 2 < toks@.len() {
            assert(toks_view(toks@)[i as int + 2] == toks@[i as int + 2]@);
        }
    }
    if i >= toks.len() {
        Ok(st)
    } else if tok_is_comma(&toks[i]) {
        parse_top(toks, i + 1, st)
    } else {
        Err(Diag { kind: DiagKind::ExpectedSeparator, pos: i })
    }
}

fn parse_list(toks: &Vec<DeclTok>, i: usize, st: ParseSt, acc: Vec<RuleParam>) -> (r: Result<
    ParseSt,
    Diag,
>)
    ensures
        ({
            let m = spec_parse_list(
                toks_view(toks@),
                i as int,
                st@,
                acc@.map_values(|p: RuleParam| p@),
            );
            &&& (r is Ok <==> m is Ok)
            &&& (r matches Ok(s) ==> m matches Ok(sm) && s@ == sm)
            &&& (r matches Err(d) ==> m matches Err(dm) && d@ == dm)
        }),
    decreases toks@.len() - i, 0int,
{
    proof {
        if (i as int) < toks@.len() {
            assert(toks_view(toks@)[i as int] == toks@[i as int]@);
        }
        if (i as int) + 1 < toks@.len() {
            assert(toks_view(toks@)[i as int + 1] == toks@[i as int + 1]@);
        }
        if (i as int) + 2 < toks@.len() {
            assert(toks_view(toks@)[i as int + 2] == toks@[i as int + 2]@);
        }
    }
    if i >= toks.len() {
        Err(Diag { kind: DiagKind::ExpectedValue(DeclKey::Params), pos: i })
    } else if tok_is_rbracket(&toks[i]) {
        parse_sep_top(
            toks,
            i + 1,
            ParseSt { name: st.name, output: st.output, body: st.body, params: Some(acc) },
        )
    } else if tok_is_lbrace(&toks[i]) {
        parse_record(toks, i + 1, st, acc, None, None)
    } else {
        Err(Diag { kind: DiagKind::ExpectedValue(DeclKey::Params), pos: i })
    }
}

fn parse_record(
    toks: &Vec<DeclTok>,
    i: usize,
    st: ParseSt,
    acc: Vec<RuleParam>,
    lab: Option<String>,
    pt: Option<ParamType>,
) -> (r: Result<ParseSt, Diag>)
    ensures
        ({
            let m = spec_parse_record(
                toks_view(toks@),
                i as int,
                st@,
                acc@.map_values(|p: RuleParam| p@),
                match lab {
                    Some(l) => Some(l@),
                    None => None,
                },
                pt,
            );
            &&& (r is Ok <==> m is Ok)
            &&& (r matches Ok(s) ==> m matches Ok(sm) && s@ == sm)
            &&& (r matches Err(d) ==> m matches Err(dm) && d@ == dm)
        }),
    decreases toks@.len() - i, 0int,
{
    proof {
        if (i as int) < toks@.len() {
            assert(toks_view(toks@)[i as int] == toks@[i as int]@);
        }
        if (i as int) + 1 < toks@.len() {
            assert(toks_view(toks@)[i as int + 1] == toks@[i as int + 1]@);
        }
        if (i as int) + 2 < toks@.len() {
            assert(toks_view(toks@)[i as int + 2] == toks@[i as int + 2]@);
        }
    }
    if i >= toks.len() {
        Err(Diag { kind: DiagKind::ExpectedParamField, pos: i })
    } else if tok_is_rbrace(&toks[i]) {
        match lab {
            None => Err(Diag { kind: DiagKind::MissingKey(DeclKey::Label), pos: i }),
            Some(l) => {
                match pt {
                    None => Err(Diag { kind: DiagKind::MissingKey(DeclKey::ParamType), pos: i }),
                    Some(t) => {
                        let ghost acc0 = acc@.map_values(|p: RuleParam| p@);
                        let mut acc2 = acc;
                        acc2.push(RuleParam { label: l, param_type: t });
                        proof {
                            assert(acc2@.map_values(|p: RuleParam| p@) =~= acc0.push(
                                RuleParamModel { label: acc2@.last().label@, param_type: t },
                            ));
                        }
                        if i + 1 >= toks.len() {
                            Err(Diag { kind: DiagKind::ExpectedSeparator, pos: i + 1 })
                        } else if tok_is_comma(&toks[i + 1]) {
                            parse_list(toks, i + 2, st, acc2)
                        } else if tok_is_rbracket(&toks[i + 1]) {
                            parse_list(toks, i + 1, st, acc2)
                        } else {
                            Err(Diag { kind: DiagKind::ExpectedSeparator, pos: i + 1 })
                        }
                    },
                }
            },
        }
    } else {
        match &toks[i] {
            DeclTok::Ident(k) => {
                if crate::kw::is_keyword(k, "label") {
                    if i + 1 >= toks.len() || !tok_is_colon(&toks[i + 1]) {
                        Err(Diag { kind: DiagKind::ExpectedValue(DeclKey::Label), pos: i + 1 })
                    } else if i + 2 >= toks.len() {
                        Err(Diag { kind: DiagKind::ExpectedValue(DeclKey::Label), pos: i + 2 })
                    } else {
                        match &toks[i + 2] {
                            DeclTok::Ident(v) => {
                                if lab.is_some() {
                                    Err(
                                        Diag {
                                            kind: DiagKind::DuplicateKey(DeclKey::Label),
                                            pos: i,
                                        },
                                    )
                                } else {
                                    parse_sep_record(toks, i + 3, st, acc, Some(v.clone()), pt)
                                }
                            },
                            _ => Err(
                                Diag { kind: DiagKind::ExpectedValue(DeclKey::Label), pos: i + 2 },
                            ),
                        }
                    }
                } else if crate::kw::is_keyword(k, "param_type") {
                    if i + 1 >= toks.len() || !tok_is_colon(&toks[i + 1]) {
                        Err(Diag { kind: DiagKind::ExpectedValue(DeclKey::ParamType), pos: i + 1 })
                    } else if i + 2 >= toks.len() {
                        Err(Diag { kind: DiagKind::ExpectedValue(DeclKey::ParamType), pos: i + 2 })
                    } else {
                        match &toks[i + 2] {
                            DeclTok::Ident(tv) => {
                                match param_type_of(tv) {
                                    Some(t) => {
                                        if pt.is_some() {
                                            Err(
                                                Diag {
                                                    kind: DiagKind::DuplicateKey(
                                                        DeclKey::ParamType,
                                                    ),
                                                    pos: i,
                                                },
                                            )
                                        } else {
                                            parse_sep_record(toks, i + 3, st, acc, lab, Some(t))
                                        }
                                    },
                                    None => Err(
                                        Diag {
                                            kind: DiagKind::ExpectedValue(DeclKey::ParamType),
                                            pos: i + 2,
                                        },
                                    ),
                                }
                            },
                            _ => Err(
                                Diag {
                                    kind: DiagKind::ExpectedValue(DeclKey::ParamType),
                                    pos: i + 2,
                                },
                            ),
                        }
                    }
                } else {
                    Err(Diag { kind: DiagKind::ExpectedParamField, pos: i })
                }
            },
            _ => Err(Diag { kind: DiagKind::ExpectedParamField, pos: i }),
        }
    }
}

fn parse_sep_record(
    toks: &Vec<DeclTok>,
    i: usize,
    st: ParseSt,
    acc: Vec<RuleParam>,
    lab: Option<String>,
    pt: Option<ParamType>,
) -> (r: Result<ParseSt, Diag>)
    ensures
        ({
            let m = spec_parse_sep_record(
                toks_view(toks@),
                i as int,
                st@,
                acc@.map_values(|p: RuleParam| p@),
                match lab {
                    Some(l) => Some(l@),
                    None => None,
                },
                pt,
            );
            &&& (r is Ok <==> m is Ok)
            &&& (r matches Ok(s) ==> m matches Ok(sm) && s@ == sm)
            &&& (r matches Err(d) ==> m matches Err(dm) && d@ == dm)
        }),
    decreases toks@.len() - i, 1int,
{
    proof {
        if (i as int) < toks@.len() {
            assert(toks_view(toks@)[i as int] == toks@[i as int]@);
        }
        if (i as int) + 1 < toks@.len() {
            assert(toks_view(toks@)[i as int + 1] == toks@[i as int + 1]@);
        }
        if (i as int) + 2 < toks@.len() {
            assert(toks_view(toks@)[i as int + 2] == toks@[i as int + 2]@);
        }
    }
    if i >= toks.len() {
        Err(Diag { kind: DiagKind::ExpectedSeparator, pos: i })
    } else if tok_is_comma(&toks[i]) {
        parse_record(toks, i + 1, st, acc, lab, pt)
    } else if tok_is_rbrace(&toks[i]) {
        parse_record(toks, i, st, acc, lab, pt)
    } else {
        Err(Diag { kind: DiagKind::ExpectedSeparator, pos: i })
    }
}

fn tok_is_colon(t: &DeclTok) -> (r: bool)
    ensures
        r == (t@ is Colon),
{
    matches!(t, DeclTok::Colon)
}

impl RuleSpec {
    /// Parse one declaration's token stream.
    pub fn parse(toks: &Vec<DeclTok>) -> (r: Result<RuleSpec, Diag>)
        ensures
            ({
                let m = spec_parse_decl(toks_view(toks@));
                &&& (r is Ok <==> m is Ok)
                &&& (r matches Ok(s) ==> m matches Ok(sm) && s@ == sm)
                &&& (r matches Err(d) ==> m matches Err(dm) && d@ == dm)
            }),
    {
        let st0 = ParseSt { name: None, output: None, body: None, params: None };
        proof {
            assert(st0@ == spec_empty_st());
        }
        match parse_top(toks, 0, st0) {
            Err(d) => Err(d),
            Ok(st) => {
                let ParseSt { name, output, body, params } = st;
                match name {
                    None => Err(
                        Diag { kind: DiagKind::MissingKey(DeclKey::Name), pos: toks.len() },
                    ),
                    Some(name) => {
                        match output {
                            None => Err(
                                Diag {
                                    kind: DiagKind::MissingKey(DeclKey::Output),
                                    pos: toks.len(),
                                },
                            ),
                            Some(output) => {
                                match body {
                                    None => Err(
                                        Diag {
                                            kind: DiagKind::MissingKey(DeclKey::Body),
                                            pos: toks.len(),
                                        },
                                    ),
                                    Some(body) => Ok(RuleSpec { name, output, body, params }),
                                }
                            },
                        }
                    },
                }
            },
        }
    }
}

/// Key uniqueness: when a top-level key's value is already recorded in the
/// parser state and the same key begins another well-formed entry, parsing
/// fails with a duplicate-key diagnostic naming that key, at the repeated key
/// token; the recorded value is never merged with the new one, since the
/// whole parse yields the diagnostic alone.
pub proof fn lemma_duplicate_key_rejected(
    toks: Seq<TokModel>,
    i: int,
    st: ParseStModel,
    key: DeclKey,
)
    requires
        0 <= i < toks.len(),
        toks[i] matches TokModel::Ident(k) && k == spec_keyword(key),
        match key {
            DeclKey::Name => st.name is Some && i + 2 < toks.len() && toks[i + 1] is Eq && toks[i
                + 2] is StrLit,
            DeclKey::Output => st.output is Some && i + 2 < toks.len() && toks[i + 1] is Eq
                && toks[i + 2] is Ident,
            DeclKey::Body => st.body is Some && i + 2 < toks.len() && toks[i + 1] is Eq && toks[i
                + 2] is StrLit,
            DeclKey::Params => st.params is Some && i + 2 < toks.len() && toks[i + 1] is Eq
                && toks[i + 2] is LBracket,
            _ => false,
        },
    ensures
        spec_parse_top(toks, i, st) == Err::<ParseStModel, DiagModel>(
            DiagModel { kind: DiagKindModel::DuplicateKey(key), pos: i },
        ),
{
    reveal_strlit("name");
    reveal_strlit("output");
    reveal_strlit("body");
    reveal_strlit("params");
    let d = DiagModel { kind: DiagKindModel::DuplicateKey(key), pos: i };
    match key {
        DeclKey::Name => {
            assert(spec_parse_top(toks, i, st) == Err::<ParseStModel, DiagModel>(d));
        },
        DeclKey::Output => {
            assert(spec_keyword(DeclKey::Output) == "output"@);
            assert("output"@.len() == 6);
            assert("name"@.len() == 4);
            assert(spec_keyword(DeclKey::Output) != "name"@);
            assert(spec_parse_top(toks, i, st) == Err::<ParseStModel, DiagModel>(d));
        },
        DeclKey::Body => {
            assert("body"@[0] == 'b');
            assert("name"@[0] == 'n');
            assert("body"@.len() == 4);
            assert("output"@.len() == 6);
            assert(spec_keyword(DeclKey::Body) != "name"@);
            assert(spec_keyword(DeclKey::Body) != "output"@);
            assert(spec_parse_top(toks, i, st) == Err::<ParseStModel, DiagModel>(d));
        },
        DeclKey::Params => {
            assert("params"@.len() == 6);
            assert("body"@.len() == 4);
            assert("name"@.len() == 4);
            assert("params"@[0] == 'p');
            assert("output"@[0] == 'o');
            assert(spec_keyword(DeclKey::Params) != "name"@);
            assert(spec_keyword(DeclKey::Params) != "output"@);
            assert(spec_keyword(DeclKey::Params) != "body"@);
            assert(spec_parse_top(toks, i, st) == Err::<ParseStModel, DiagModel>(d));
        },
        _ => {
            assert(false);
        },
    }
}

/// Mandatory coverage: when every entry parses but a mandatory key was never
/// supplied, the declaration fails with a missing-key diagnostic naming
/// exactly the first absent mandatory key — in the order `name`, `output`,
/// `body` — positioned at the end of the input; and when all three are
/// present the declaration parses, `params` remaining optional.
pub proof fn lemma_missing_key_reported(toks: Seq<TokModel>, st: ParseStModel)
    requires
        spec_parse_top(toks, 0, spec_empty_st()) == Ok::<ParseStModel, DiagModel>(st),
    ensures
        st.name is None ==> spec_parse_decl(toks) == Err::<RuleSpecModel, DiagModel>(
            DiagModel {
                kind: DiagKindModel::MissingKey(DeclKey::Name),
                pos: toks.len() as int,
            },
        ),
        st.name is Some && st.output is None ==> spec_parse_decl(toks) == Err::<
            RuleSpecModel,
            DiagModel,
        >(DiagModel { kind: DiagKindModel::MissingKey(DeclKey::Output), pos: toks.len() as int }),
        st.name is Some && st.output is Some && st.body is None ==> spec_parse_decl(toks)
            == Err::<RuleSpecModel, DiagModel>(
            DiagModel { kind: DiagKindModel::MissingKey(DeclKey::Body), pos: toks.len() as int },
        ),
        st.name is Some && st.output is Some && st.body is Some ==> spec_parse_decl(toks)
            == Ok::<RuleSpecModel, DiagModel>(
            RuleSpecModel {
                name: st.name->0,
                output: st.output->0,
                body: st.body->0,
                params: st.params,
            },
        ),
{
}

} // verus!
