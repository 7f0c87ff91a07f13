use irods_rules::diag::DiagKind;
use irods_rules::rule::{RecordField, TargetRecord};
use irods_rules::rule_input::DeclTok;
use irods_rules::rule_param::ParamValue;
use irods_rules::serialize::RuleInstance;
use irods_rules::{rule, OutputType, ParamType};

fn ident(s: &str) -> DeclTok {
    DeclTok::Ident(s.to_string())
}

fn lit(s: &str) -> DeclTok {
    DeclTok::StrLit(s.to_string())
}

fn greet_decl() -> Vec<DeclTok> {
    vec![
        ident("name"),
        DeclTok::Eq,
        lit("greet"),
        DeclTok::Comma,
        ident("output"),
        DeclTok::Eq,
        ident("ExecRuleOut"),
        DeclTok::Comma,
        ident("body"),
        DeclTok::Eq,
        lit("writeLine(*msg)"),
    ]
}

fn field(name: &str, ty: &str) -> RecordField {
    RecordField { name: name.to_string(), ty: Some(ty.to_string()) }
}

fn msg_record() -> TargetRecord {
    TargetRecord { fields: Some(vec![field("msg", "String")]) }
}

fn instance(args: Vec<ParamValue>) -> RuleInstance {
    RuleInstance {
        host_addr: "127.0.0.1".to_string(),
        port: 1247,
        rods_zone: None,
        instance_name: None,
        args,
    }
}

#[test]
fn generation_succeeds_and_emits_the_exact_document() {
    let outcome = rule(&greet_decl(), msg_record());
    assert!(outcome.diag.is_none());
    let r = outcome.rule.unwrap();
    assert_eq!(r.name, "greet");
    assert_eq!(r.output, OutputType::ExecRuleOut);
    assert_eq!(r.params.len(), 1);
    assert_eq!(r.params[0].label, "msg");
    assert_eq!(r.params[0].param_type, ParamType::String);

    let doc = r.try_to_xml(&instance(vec![ParamValue::Str("hello".to_string())])).unwrap();
    let expected = "<ExecMyRuleInp_PI>\
        <myRule>@external greet { writeLine(*msg) }</myRule>\
        <RHostAddr_PI>\
        <hostAddr>127.0.0.1</hostAddr>\
        <rodsZone></rodsZone>\
        <port>1247</port>\
        <dummyInt>0</dummyInt>\
        </RHostAddr_PI>\
        <KeyValPair_PI><ssLen>0</ssLen></KeyValPair_PI>\
        <outParamDesc>execRuleOut</outParamDesc>\
        <MsParamArray_PI>\
        <paramLen>1</paramLen>\
        <oprType>0</oprType>\
        <MsParam_PI>\
        <label>*msg</label>\
        <type>STR_PI</type>\
        <STR_PI><myStr>hello</myStr></STR_PI>\
        </MsParam_PI>\
        </MsParamArray_PI>\
        </ExecMyRuleInp_PI>";
    assert_eq!(doc, expected);
}

#[test]
fn unsupported_field_type_names_the_field() {
    let record = TargetRecord {
        fields: Some(vec![field("msg", "String"), field("payload", "InnerRecord")]),
    };
    let toks = vec![
        ident("name"),
        DeclTok::Eq,
        lit("greet"),
        DeclTok::Comma,
        ident("output"),
        DeclTok::Eq,
        ident("ExecRuleOut"),
        DeclTok::Comma,
        ident("body"),
        DeclTok::Eq,
        lit("writeLine(*msg); use(*payload)"),
    ];
    let outcome = rule(&toks, record);
    assert!(outcome.rule.is_none());
    let d = outcome.diag.unwrap();
    assert_eq!(d.kind, DiagKind::UnmappedFieldType("payload".to_string()));
    assert_eq!(
        d.message(),
        "field 'payload': only String, Byte, Int16, Int32, Double are currently mapped to rule-language types"
    );
}

#[test]
fn missing_body_fails_and_passes_the_record_through() {
    let toks = vec![
        ident("name"),
        DeclTok::Eq,
        lit("greet"),
        DeclTok::Comma,
        ident("output"),
        DeclTok::Eq,
        ident("ExecRuleOut"),
    ];
    let outcome = rule(&toks, msg_record());
    assert!(outcome.rule.is_none());
    let d = outcome.diag.unwrap();
    assert_eq!(d.kind, DiagKind::MissingKey(irods_rules::kw::DeclKey::Body));
    assert_eq!(d.pos, 7);
    assert_eq!(outcome.record, msg_record());
}

#[test]
fn unregistered_output_type_fails_generation() {
    let toks = vec![
        ident("name"),
        DeclTok::Eq,
        lit("greet"),
        DeclTok::Comma,
        ident("output"),
        DeclTok::Eq,
        ident("MysteryOut"),
        DeclTok::Comma,
        ident("body"),
        DeclTok::Eq,
        lit("writeLine(*msg)"),
    ];
    let outcome = rule(&toks, msg_record());
    let d = outcome.diag.unwrap();
    assert_eq!(d.kind, DiagKind::UnsupportedOutput);
    assert_eq!(d.message(), "unsupported output type");
}

#[test]
fn record_without_named_fields_is_rejected() {
    let outcome = rule(&greet_decl(), TargetRecord { fields: None });
    let d = outcome.diag.unwrap();
    assert_eq!(d.kind, DiagKind::UnnamedFields);
    assert_eq!(d.message(), "expected a record with named fields");
}

#[test]
fn placeholder_mismatch_is_rejected() {
    let toks = vec![
        ident("name"),
        DeclTok::Eq,
        lit("greet"),
        DeclTok::Comma,
        ident("output"),
        DeclTok::Eq,
        ident("ExecRuleOut"),
        DeclTok::Comma,
        ident("body"),
        DeclTok::Eq,
        lit("writeLine(*msg); writeLine(*msg)"),
    ];
    let outcome = rule(&toks, msg_record());
    let d = outcome.diag.unwrap();
    assert_eq!(d.kind, DiagKind::PlaceholderMismatch);
    assert_eq!(d.message(), "expected same number of fields as named variables in rule body");
}

#[test]
fn placeholder_order_is_not_required() {
    let toks = vec![
        ident("name"),
        DeclTok::Eq,
        lit("pair"),
        DeclTok::Comma,
        ident("output"),
        DeclTok::Eq,
        ident("ExecRuleOut"),
        DeclTok::Comma,
        ident("body"),
        DeclTok::Eq,
        lit("writeLine(*second); writeLine(*first)"),
    ];
    let record = TargetRecord {
        fields: Some(vec![field("first", "i32"), field("second", "String")]),
    };
    let outcome = rule(&toks, record);
    assert!(outcome.diag.is_none());
    assert!(outcome.rule.is_some());
}

#[test]
fn declared_params_must_match_the_fields() {
    let mut toks = greet_decl();
    toks.extend(vec![
        DeclTok::Comma,
        ident("params"),
        DeclTok::Eq,
        DeclTok::LBracket,
        DeclTok::LBrace,
        ident("label"),
        DeclTok::Colon,
        ident("other"),
        DeclTok::Comma,
        ident("param_type"),
        DeclTok::Colon,
        ident("string"),
        DeclTok::RBrace,
        DeclTok::RBracket,
    ]);
    let outcome = rule(&toks, msg_record());
    let d = outcome.diag.unwrap();
    assert_eq!(d.kind, DiagKind::ParamsFieldsMismatch);
}

#[test]
fn declared_params_supply_the_types() {
    let toks = vec![
        ident("name"),
        DeclTok::Eq,
        lit("count"),
        DeclTok::Comma,
        ident("output"),
        DeclTok::Eq,
        ident("ExecRuleOut"),
        DeclTok::Comma,
        ident("body"),
        DeclTok::Eq,
        lit("writeLine(*n)"),
        DeclTok::Comma,
        ident("params"),
        DeclTok::Eq,
        DeclTok::LBracket,
        DeclTok::LBrace,
        ident("label"),
        DeclTok::Colon,
        ident("n"),
        DeclTok::Comma,
        ident("param_type"),
        DeclTok::Colon,
        ident("int32"),
        DeclTok::RBrace,
        DeclTok::RBracket,
    ];
    let record = TargetRecord { fields: Some(vec![RecordField { name: "n".to_string(), ty: None }]) };
    let outcome = rule(&toks, record);
    assert!(outcome.diag.is_none());
    let r = outcome.rule.unwrap();
    assert_eq!(r.params[0].param_type, ParamType::Int32);
    let doc = r.try_to_xml(&instance(vec![ParamValue::Int32(-7)])).unwrap();
    assert!(doc.contains("<MsParam_PI><label>*n</label><type>INT_PI</type><INT_PI><myInt>-7</myInt></INT_PI></MsParam_PI>"));
}

#[test]
fn instance_identifier_fills_the_key_value_pair() {
    let outcome = rule(&greet_decl(), msg_record());
    let r = outcome.rule.unwrap();
    let inst = RuleInstance {
        host_addr: "10.0.0.2".to_string(),
        port: 1247,
        rods_zone: Some("tempZone".to_string()),
        instance_name: Some("abc".to_string()),
        args: vec![ParamValue::Str("hi".to_string())],
    };
    let doc = r.try_to_xml(&inst).unwrap();
    assert!(doc.contains(
        "<KeyValPair_PI><ssLen>1</ssLen><keyWord>instance_name</keyWord><svalue>abc</svalue></KeyValPair_PI>"
    ));
    assert!(doc.contains("<rodsZone>tempZone</rodsZone>"));
}

#[test]
fn absent_instance_identifier_emits_only_the_count() {
    let outcome = rule(&greet_decl(), msg_record());
    let r = outcome.rule.unwrap();
    let doc = r.try_to_xml(&instance(vec![ParamValue::Str("hi".to_string())])).unwrap();
    assert!(doc.contains("<KeyValPair_PI><ssLen>0</ssLen></KeyValPair_PI>"));
    assert!(!doc.contains("keyWord"));
    assert!(!doc.contains("svalue"));
}

#[test]
fn fixed_values_are_always_zero() {
    let outcome = rule(&greet_decl(), msg_record());
    let r = outcome.rule.unwrap();
    let doc = r.try_to_xml(&instance(vec![ParamValue::Str("x".to_string())])).unwrap();
    assert!(doc.contains("<dummyInt>0</dummyInt>"));
    assert!(doc.contains("<oprType>0</oprType>"));
}

#[test]
fn param_len_counts_the_parameters() {
    let toks = vec![
        ident("name"),
        DeclTok::Eq,
        lit("three"),
        DeclTok::Comma,
        ident("output"),
        DeclTok::Eq,
        ident("ExecRuleOut"),
        DeclTok::Comma,
        ident("body"),
        DeclTok::Eq,
        lit("f(*a, *b, *c)"),
    ];
    let record = TargetRecord {
        fields: Some(vec![field("a", "String"), field("b", "i16"), field("c", "u8")]),
    };
    let outcome = rule(&toks, record);
    let r = outcome.rule.unwrap();
    let doc = r
        .try_to_xml(&instance(vec![
            ParamValue::Str("s".to_string()),
            ParamValue::Int16(-2),
            ParamValue::Byte(255),
        ]))
        .unwrap();
    assert!(doc.contains("<paramLen>3</paramLen>"));
    assert_eq!(doc.matches("<MsParam_PI>").count(), 3);
    assert_eq!(doc.matches("</MsParam_PI>").count(), 3);
}

#[test]
fn mismatched_arguments_are_refused() {
    let outcome = rule(&greet_decl(), msg_record());
    let r = outcome.rule.unwrap();
    assert!(r.try_to_xml(&instance(vec![])).is_none());
    assert!(r.try_to_xml(&instance(vec![ParamValue::Int32(3)])).is_none());
}

#[test]
fn placeholder_at_end_of_body_is_recognized() {
    let toks = vec![
        ident("name"),
        DeclTok::Eq,
        lit("say"),
        DeclTok::Comma,
        ident("output"),
        DeclTok::Eq,
        ident("ExecRuleOut"),
        DeclTok::Comma,
        ident("body"),
        DeclTok::Eq,
        lit("say *msg"),
    ];
    let outcome = rule(&toks, msg_record());
    assert!(outcome.diag.is_none());
}

#[test]
fn adjacent_placeholders_are_each_recognized() {
    let toks = vec![
        ident("name"),
        DeclTok::Eq,
        lit("pair"),
        DeclTok::Comma,
        ident("output"),
        DeclTok::Eq,
        ident("ExecRuleOut"),
        DeclTok::Comma,
        ident("body"),
        DeclTok::Eq,
        lit("*a*b"),
    ];
    let record = TargetRecord {
        fields: Some(vec![field("a", "String"), field("b", "String")]),
    };
    let outcome = rule(&toks, record);
    assert!(outcome.diag.is_none());
}

#[test]
fn empty_body_with_no_fields_succeeds() {
    let toks = vec![
        ident("name"),
        DeclTok::Eq,
        lit("noop"),
        DeclTok::Comma,
        ident("output"),
        DeclTok::Eq,
        ident("ExecRuleOut"),
        DeclTok::Comma,
        ident("body"),
        DeclTok::Eq,
        lit(""),
    ];
    let record = TargetRecord { fields: Some(vec![]) };
    let outcome = rule(&toks, record);
    assert!(outcome.diag.is_none());
    let r = outcome.rule.unwrap();
    let doc = r.try_to_xml(&instance(vec![])).unwrap();
    assert!(doc.contains("<myRule>@external noop {  }</myRule>"));
    assert!(doc.contains("<paramLen>0</paramLen>"));
}
