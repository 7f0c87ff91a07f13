use irods_rules::exec_rule_impl::expand_implementation;
use irods_rules::input_struct::{expand_fields, expand_input_struct};
use irods_rules::num_text::{i32_to_dec, u64_to_dec};
use irods_rules::rule_param::{ParamValue, RuleParam};
use irods_rules::serialize::{Rule, RuleInstance};
use irods_rules::{OutputType, ParamType};

fn param(label: &str, t: ParamType) -> RuleParam {
    RuleParam { label: label.to_string(), param_type: t }
}

fn rule_with(params: Vec<RuleParam>) -> Rule {
    Rule {
        name: "demo".to_string(),
        output: OutputType::ExecRuleOut,
        body: "run".to_string(),
        params,
    }
}

fn instance(args: Vec<ParamValue>) -> RuleInstance {
    RuleInstance {
        host_addr: "localhost".to_string(),
        port: 9000,
        rods_zone: None,
        instance_name: None,
        args,
    }
}

#[test]
fn every_scalar_kind_uses_its_wire_sub_format() {
    let r = rule_with(vec![
        param("s", ParamType::String),
        param("b", ParamType::Byte),
        param("i", ParamType::Int16),
        param("j", ParamType::Int32),
        param("d", ParamType::Double),
    ]);
    let doc = r
        .try_to_xml(&instance(vec![
            ParamValue::Str("text".to_string()),
            ParamValue::Byte(0),
            ParamValue::Int16(i16::MIN),
            ParamValue::Int32(i32::MAX),
            ParamValue::Double(format!("{}", 2.5f64)),
        ]))
        .unwrap();
    assert!(doc.contains("<label>*s</label><type>STR_PI</type><STR_PI><myStr>text</myStr></STR_PI>"));
    assert!(doc.contains("<label>*b</label><type>CHAR_PI</type><CHAR_PI><myChar>0</myChar></CHAR_PI>"));
    assert!(doc.contains("<label>*i</label><type>INT16_PI</type><INT16_PI><myInt>-32768</myInt></INT16_PI>"));
    assert!(doc.contains("<label>*j</label><type>INT_PI</type><INT_PI><myInt>2147483647</myInt></INT_PI>"));
    assert!(doc.contains("<label>*d</label><type>DOUBLE_PI</type><DOUBLE_PI><myDouble>2.5</myDouble></DOUBLE_PI>"));
}

#[test]
fn text_nodes_are_escaped() {
    let r = Rule {
        name: "esc".to_string(),
        output: OutputType::ExecRuleOut,
        body: "a<b & 'c' \"d\">e".to_string(),
        params: vec![],
    };
    let inst = RuleInstance {
        host_addr: "localhost".to_string(),
        port: 1,
        rods_zone: Some("z&z".to_string()),
        instance_name: Some("i<i".to_string()),
        args: vec![],
    };
    let doc = r.try_to_xml(&inst).unwrap();
    assert!(doc.contains(
        "<myRule>@external esc { a&lt;b &amp; &apos;c&apos; &quot;d&quot;&gt;e }</myRule>"
    ));
    assert!(doc.contains("<rodsZone>z&amp;z</rodsZone>"));
    assert!(doc.contains("<svalue>i&lt;i</svalue>"));
}

#[test]
fn string_values_are_escaped_and_numbers_are_not() {
    let r = rule_with(vec![param("s", ParamType::String)]);
    let doc = r
        .try_to_xml(&instance(vec![ParamValue::Str("<&>".to_string())]))
        .unwrap();
    assert!(doc.contains("<myStr>&lt;&amp;&gt;</myStr>"));
}

#[test]
fn decimal_renderings_are_canonical() {
    assert_eq!(u64_to_dec(0), "0");
    assert_eq!(u64_to_dec(7), "7");
    assert_eq!(u64_to_dec(12345), "12345");
    assert_eq!(u64_to_dec(u64::MAX), "18446744073709551615");
    assert_eq!(i32_to_dec(0), "0");
    assert_eq!(i32_to_dec(-1), "-1");
    assert_eq!(i32_to_dec(i32::MIN), "-2147483648");
    assert_eq!(i32_to_dec(i32::MAX), "2147483647");
}

#[test]
fn type_table_is_complete() {
    let all = [
        (ParamType::String, "STR_PI", "String"),
        (ParamType::Byte, "CHAR_PI", "u8"),
        (ParamType::Int16, "INT16_PI", "i16"),
        (ParamType::Int32, "INT_PI", "i32"),
        (ParamType::Double, "DOUBLE_PI", "f64"),
    ];
    for (t, wire, host) in all {
        assert!(!t.wire_format().is_empty());
        assert!(!t.host_scalar().is_empty());
        assert_eq!(t.wire_format(), wire);
        assert_eq!(t.host_scalar(), host);
    }
}

#[test]
fn output_table_names_both_spellings() {
    let out = OutputType::ExecRuleOut;
    assert_eq!(out.as_str(), "exec_rule_out");
    assert_eq!(out.wire_name(), "execRuleOut");
    assert_eq!(
        irods_rules::exec_rule_out_types::output_type_of(&"ExecRuleOut".to_string()),
        Some(OutputType::ExecRuleOut)
    );
    assert_eq!(
        irods_rules::exec_rule_out_types::output_type_of(&"Nope".to_string()),
        None
    );
}

#[test]
fn signature_lines_follow_the_type_mapper() {
    let lines = expand_implementation(&vec![
        param("msg", ParamType::String),
        param("count", ParamType::Int32),
        param("ratio", ParamType::Double),
    ]);
    assert_eq!(lines, vec!["msg: String,", "count: i32,", "ratio: f64,"]);
}

#[test]
fn field_lines_and_input_struct_text() {
    let params = vec![param("msg", ParamType::String), param("flag", ParamType::Byte)];
    let lines = expand_fields(&params);
    assert_eq!(lines, vec!["pub msg: String,", "pub flag: u8,"]);
    let text = expand_input_struct(&"GreetInput".to_string(), &params);
    assert_eq!(
        text,
        "pub struct GreetInput { pub msg: String, pub flag: u8, \
         pub host_addr: String, pub port: u16, pub rods_zone: Option<String>, \
         pub instance_name: Option<String>, }"
    );
}

#[test]
fn tokify_emits_one_parameter_block() {
    let p = param("msg", ParamType::String);
    let v = ParamValue::Str("hi".to_string());
    let mut sink = String::new();
    RuleParam::tokify(&p, &v, &mut sink);
    assert_eq!(
        sink,
        "<MsParam_PI><label>*msg</label><type>STR_PI</type><STR_PI><myStr>hi</myStr></STR_PI></MsParam_PI>"
    );
}

#[test]
fn empty_parameter_list_emits_an_empty_array() {
    let r = rule_with(vec![]);
    let doc = r.try_to_xml(&instance(vec![])).unwrap();
    assert!(doc.contains(
        "<MsParamArray_PI><paramLen>0</paramLen><oprType>0</oprType></MsParamArray_PI>"
    ));
}
