use irods_rules::diag::DiagKind;
use irods_rules::kw::DeclKey;
use irods_rules::rule_input::{DeclTok, RuleSpec};
use irods_rules::ParamType;

fn ident(s: &str) -> DeclTok {
    DeclTok::Ident(s.to_string())
}

fn lit(s: &str) -> DeclTok {
    DeclTok::StrLit(s.to_string())
}

fn full_decl() -> Vec<DeclTok> {
    vec![
        ident("name"),
        DeclTok::Eq,
        lit("greet"),
        DeclTok::Comma,
        ident("output"),
        DeclTok::Eq,
        ident("ExecRuleOut"),
        DeclTok::Comma,
        ident("body"),
        DeclTok::Eq,
        lit("writeLine(*msg)"),
    ]
}

#[test]
fn parses_minimal_declaration() {
    let spec = RuleSpec::parse(&full_decl()).unwrap();
    assert_eq!(spec.name, "greet");
    assert_eq!(spec.output, "ExecRuleOut");
    assert_eq!(spec.body, "writeLine(*msg)");
    assert!(spec.params.is_none());
}

#[test]
fn parses_trailing_comma() {
    let mut toks = full_decl();
    toks.push(DeclTok::Comma);
    let spec = RuleSpec::parse(&toks).unwrap();
    assert_eq!(spec.name, "greet");
}

#[test]
fn parses_params_list() {
    let mut toks = full_decl();
    toks.extend(vec![
        DeclTok::Comma,
        ident("params"),
        DeclTok::Eq,
        DeclTok::LBracket,
        DeclTok::LBrace,
        ident("label"),
        DeclTok::Colon,
        ident("msg"),
        DeclTok::Comma,
        ident("param_type"),
        DeclTok::Colon,
        ident("string"),
        DeclTok::RBrace,
        DeclTok::Comma,
        DeclTok::LBrace,
        ident("param_type"),
        DeclTok::Colon,
        ident("int32"),
        DeclTok::Comma,
        ident("label"),
        DeclTok::Colon,
        ident("count"),
        DeclTok::RBrace,
        DeclTok::RBracket,
    ]);
    let spec = RuleSpec::parse(&toks).unwrap();
    let params = spec.params.unwrap();
    assert_eq!(params.len(), 2);
    assert_eq!(params[0].label, "msg");
    assert_eq!(params[0].param_type, ParamType::String);
    assert_eq!(params[1].label, "count");
    assert_eq!(params[1].param_type, ParamType::Int32);
}

#[test]
fn duplicate_name_is_rejected() {
    let mut toks = full_decl();
    toks.extend(vec![DeclTok::Comma, ident("name"), DeclTok::Eq, lit("other")]);
    let d = RuleSpec::parse(&toks).unwrap_err();
    assert_eq!(d.kind, DiagKind::DuplicateKey(DeclKey::Name));
    assert_eq!(d.pos, 12);
    assert_eq!(d.message(), "duplicate 'name' argument");
}

#[test]
fn duplicate_output_is_rejected() {
    let mut toks = full_decl();
    toks.extend(vec![DeclTok::Comma, ident("output"), DeclTok::Eq, ident("ExecRuleOut")]);
    let d = RuleSpec::parse(&toks).unwrap_err();
    assert_eq!(d.kind, DiagKind::DuplicateKey(DeclKey::Output));
}

#[test]
fn duplicate_body_is_rejected() {
    let mut toks = full_decl();
    toks.extend(vec![DeclTok::Comma, ident("body"), DeclTok::Eq, lit("nop")]);
    let d = RuleSpec::parse(&toks).unwrap_err();
    assert_eq!(d.kind, DiagKind::DuplicateKey(DeclKey::Body));
}

#[test]
fn duplicate_label_in_record_is_rejected() {
    let toks = vec![
        ident("params"),
        DeclTok::Eq,
        DeclTok::LBracket,
        DeclTok::LBrace,
        ident("label"),
        DeclTok::Colon,
        ident("a"),
        DeclTok::Comma,
        ident("label"),
        DeclTok::Colon,
        ident("b"),
        DeclTok::RBrace,
        DeclTok::RBracket,
    ];
    let d = RuleSpec::parse(&toks).unwrap_err();
    assert_eq!(d.kind, DiagKind::DuplicateKey(DeclKey::Label));
    assert_eq!(d.pos, 8);
}

#[test]
fn missing_name_is_reported_first() {
    let toks = vec![ident("output"), DeclTok::Eq, ident("ExecRuleOut")];
    let d = RuleSpec::parse(&toks).unwrap_err();
    assert_eq!(d.kind, DiagKind::MissingKey(DeclKey::Name));
    assert_eq!(d.pos, 3);
    assert_eq!(d.message(), "expected 'name = <string literal>'");
}

#[test]
fn missing_output_is_reported() {
    let toks = vec![
        ident("name"),
        DeclTok::Eq,
        lit("greet"),
        DeclTok::Comma,
        ident("body"),
        DeclTok::Eq,
        lit("nop"),
    ];
    let d = RuleSpec::parse(&toks).unwrap_err();
    assert_eq!(d.kind, DiagKind::MissingKey(DeclKey::Output));
}

#[test]
fn missing_body_is_reported() {
    let toks = vec![
        ident("name"),
        DeclTok::Eq,
        lit("greet"),
        DeclTok::Comma,
        ident("output"),
        DeclTok::Eq,
        ident("ExecRuleOut"),
    ];
    let d = RuleSpec::parse(&toks).unwrap_err();
    assert_eq!(d.kind, DiagKind::MissingKey(DeclKey::Body));
    assert_eq!(
        d.message(),
        "expected 'body = <string literal>', which must be valid rule-language text"
    );
}

#[test]
fn missing_label_in_record_is_reported() {
    let toks = vec![
        ident("params"),
        DeclTok::Eq,
        DeclTok::LBracket,
        DeclTok::LBrace,
        ident("param_type"),
        DeclTok::Colon,
        ident("string"),
        DeclTok::RBrace,
        DeclTok::RBracket,
    ];
    let d = RuleSpec::parse(&toks).unwrap_err();
    assert_eq!(d.kind, DiagKind::MissingKey(DeclKey::Label));
    assert_eq!(d.pos, 7);
}

#[test]
fn missing_param_type_in_record_is_reported() {
    let toks = vec![
        ident("params"),
        DeclTok::Eq,
        DeclTok::LBracket,
        DeclTok::LBrace,
        ident("label"),
        DeclTok::Colon,
        ident("msg"),
        DeclTok::RBrace,
        DeclTok::RBracket,
    ];
    let d = RuleSpec::parse(&toks).unwrap_err();
    assert_eq!(d.kind, DiagKind::MissingKey(DeclKey::ParamType));
}

#[test]
fn unrecognized_key_is_rejected() {
    let toks = vec![ident("frobnicate"), DeclTok::Eq, lit("x")];
    let d = RuleSpec::parse(&toks).unwrap_err();
    assert_eq!(d.kind, DiagKind::ExpectedKey);
    assert_eq!(d.pos, 0);
    assert_eq!(d.message(), "expected one of 'name', 'output', 'body', 'params'");
}

#[test]
fn malformed_name_value_is_rejected() {
    let toks = vec![ident("name"), DeclTok::Eq, ident("greet")];
    let d = RuleSpec::parse(&toks).unwrap_err();
    assert_eq!(d.kind, DiagKind::ExpectedValue(DeclKey::Name));
    assert_eq!(d.pos, 2);
}

#[test]
fn unknown_param_type_is_rejected() {
    let toks = vec![
        ident("params"),
        DeclTok::Eq,
        DeclTok::LBracket,
        DeclTok::LBrace,
        ident("label"),
        DeclTok::Colon,
        ident("msg"),
        DeclTok::Comma,
        ident("param_type"),
        DeclTok::Colon,
        ident("quaternion"),
        DeclTok::RBrace,
        DeclTok::RBracket,
    ];
    let d = RuleSpec::parse(&toks).unwrap_err();
    assert_eq!(d.kind, DiagKind::ExpectedValue(DeclKey::ParamType));
    assert_eq!(d.pos, 10);
}

#[test]
fn missing_separator_is_rejected() {
    let toks = vec![
        ident("name"),
        DeclTok::Eq,
        lit("greet"),
        ident("body"),
        DeclTok::Eq,
        lit("nop"),
    ];
    let d = RuleSpec::parse(&toks).unwrap_err();
    assert_eq!(d.kind, DiagKind::ExpectedSeparator);
    assert_eq!(d.pos, 3);
    assert_eq!(d.message(), "expected ','");
}

#[test]
fn empty_param_record_reports_missing_label() {
    let toks = vec![
        ident("params"),
        DeclTok::Eq,
        DeclTok::LBracket,
        DeclTok::LBrace,
        DeclTok::RBrace,
        DeclTok::RBracket,
    ];
    let d = RuleSpec::parse(&toks).unwrap_err();
    assert_eq!(d.kind, DiagKind::MissingKey(DeclKey::Label));
    assert_eq!(d.pos, 4);
}

#[test]
fn empty_params_list_parses() {
    let mut toks = full_decl();
    toks.extend(vec![
        DeclTok::Comma,
        ident("params"),
        DeclTok::Eq,
        DeclTok::LBracket,
        DeclTok::RBracket,
    ]);
    let spec = RuleSpec::parse(&toks).unwrap();
    assert_eq!(spec.params.unwrap().len(), 0);
}

#[test]
fn duplicate_params_key_is_rejected() {
    let toks = vec![
        ident("params"),
        DeclTok::Eq,
        DeclTok::LBracket,
        DeclTok::RBracket,
        DeclTok::Comma,
        ident("params"),
        DeclTok::Eq,
        DeclTok::LBracket,
        DeclTok::RBracket,
    ];
    let d = RuleSpec::parse(&toks).unwrap_err();
    assert_eq!(d.kind, DiagKind::DuplicateKey(DeclKey::Params));
    assert_eq!(d.pos, 5);
}
