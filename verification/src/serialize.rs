//! The wire document of one rule-execution request, and the encoder that
//! emits it. The document is a fixed-shape tree: every element's presence and
//! order is dictated by the protocol; only the presence of an instance
//! identifier and the number of parameters vary with the input. The encoder
//! therefore needs no general tree walk: it unrolls the fixed skeleton
//! through the tag-emission primitives and loops only over the parameter
//! list.

use vstd::prelude::*;

use crate::exec_rule_out_types::{spec_output_wire, OutputType};
use crate::num_text::{spec_dec_nat, u64_to_dec};
use crate::rule_param::{spec_value_matches, ParamValue, ParamValueModel, RuleParam,
    RuleParamModel};
use crate::write_utils::{spec_close, spec_open, spec_tag, spec_tag_fmt, write_end, write_start,
    write_tag, write_tag_fmt};

verus! {

/// A validated rule: the artifact generation produces. Its fields are
/// mutually consistent — validation and the type mapper vouched for them —
/// and `to_xml` turns one runtime instance into the wire document.
#[derive(Debug)]
pub struct Rule {
    pub name: String,
    pub output: OutputType,
    pub body: String,
    pub params: Vec<RuleParam>,
}

/// The mathematical content of a validated rule.
pub struct RuleModel {
    pub name: Seq<char>,
    pub output: OutputType,
    pub body: Seq<char>,
    pub params: Seq<RuleParamModel>,
}

impl View for Rule {
    type V = RuleModel;

    open spec fn view(&self) -> RuleModel {
        RuleModel {
            name: self.name@,
            output: self.output,
            body: self.body@,
            params: self.params@.map_values(|p: RuleParam| p@),
        }
    }
}

/// One runtime instance of a rule call: where the request goes, the optional
/// zone and rule-engine instance names, and one value per declared parameter,
/// in declaration order.
#[derive(Debug)]
pub struct RuleInstance {
    pub host_addr: String,
    pub port: u16,
    pub rods_zone: Option<String>,
    pub instance_name: Option<String>,
    pub args: Vec<ParamValue>,
}

/// The mathematical content of a rule instance.
pub struct RuleInstanceModel {
    pub host_addr: Seq<char>,
    pub port: u16,
    pub rods_zone: Option<Seq<char>>,
    pub instance_name: Option<Seq<char>>,
    pub args: Seq<ParamValueModel>,
}

impl View for RuleInstance {
    type V = RuleInstanceModel;

    open spec fn view(&self) -> RuleInstanceModel {
        RuleInstanceModel {
            host_addr: self.host_addr@,
            port: self.port,
            rods_zone: match &self.rods_zone {
                Some(z) => Some(z@),
                None => None,
            },
            instance_name: match &self.instance_name {
                Some(i) => Some(i@),
                None => None,
            },
            args: self.args@.map_values(|v: ParamValue| v@),
        }
    }
}

/// The text wrapped in the `myRule` element: the body template under the
/// rule's name, marked external.
pub open spec fn spec_rule_body(name: Seq<char>, body: Seq<char>) -> Seq<char> {
    "@external "@ + name + " { "@ + body + " }"@
}

/// The `RHostAddr_PI` block: host part verbatim, zone name or empty, port in
/// decimal, and the fixed `dummyInt` text `0`.
pub open spec fn spec_rhost_addr(host: Seq<char>, zone: Option<Seq<char>>, port: u16) -> Seq<
    char,
> {
    spec_open("RHostAddr_PI"@) + spec_tag_fmt("hostAddr"@, host) + spec_tag(
        "rodsZone"@,
        match zone {
            Some(z) => z,
            None => Seq::empty(),
        },
    ) + spec_tag_fmt("port"@, spec_dec_nat(port as nat)) + spec_tag("dummyInt"@, "0"@)
        + spec_close("RHostAddr_PI"@)
}

/// The `KeyValPair_PI` block: with an instance identifier one pair under the
/// fixed key `instance_name` and `ssLen` text `1`; without one only `ssLen`
/// text `0`.
pub open spec fn spec_kvp(instance: Option<Seq<char>>) -> Seq<char> {
    spec_open("KeyValPair_PI"@) + (match instance {
        Some(i) => spec_tag("ssLen"@, "1"@) + spec_tag("keyWord"@, "instance_name"@) + spec_tag(
            "svalue"@,
            i,
        ),
        None => spec_tag("ssLen"@, "0"@),
    }) + spec_close("KeyValPair_PI"@)
}

/// The parameter blocks in declaration order: one `MsParam_PI` block per
/// parameter, carrying the value at the same position.
pub open spec fn spec_params_doc(ps: Seq<RuleParamModel>, vs: Seq<ParamValueModel>) -> Seq<char>
    decreases ps.len(),
{
    if ps.len() == 0 {
        Seq::empty()
    } else {
        spec_params_doc(ps.drop_last(), vs.drop_last()) + crate::rule_param::spec_ms_param(
            ps.last(),
            vs.last(),
        )
    }
}

/// The `MsParamArray_PI` block: the decimal parameter count, the fixed
/// `oprType` text `0`, then the parameter blocks.
pub open spec fn spec_param_array(ps: Seq<RuleParamModel>, vs: Seq<ParamValueModel>) -> Seq<
    char,
> {
    spec_open("MsParamArray_PI"@) + spec_tag("paramLen"@, spec_dec_nat(ps.len())) + spec_tag(
        "oprType"@,
        "0"@,
    ) + spec_params_doc(ps, vs) + spec_close("MsParamArray_PI"@)
}

/// The whole request document.
pub open spec fn spec_request_doc(r: RuleModel, inst: RuleInstanceModel) -> Seq<char> {
    spec_open("ExecMyRuleInp_PI"@) + spec_tag("myRule"@, spec_rule_body(r.name, r.body))
        + spec_rhost_addr(inst.host_addr, inst.rods_zone, inst.port) + spec_kvp(inst.instance_name)
        + spec_tag("outParamDesc"@, spec_output_wire(r.output)) + spec_param_array(
        r.params,
        inst.args,
    ) + spec_close("ExecMyRuleInp_PI"@)
}

/// Whether an instance supplies one value of the right scalar kind for each
/// declared parameter, in order.
pub open spec fn spec_args_match(ps: Seq<RuleParamModel>, vs: Seq<ParamValueModel>) -> bool {
    &&& vs.len() == ps.len()
    &&& forall|i: int|
        0 <= i < ps.len() ==> spec_value_matches(ps[i].param_type, #[trigger] vs[i])
}

/// Whether the instance's values fit this rule's parameter signature.
pub fn args_match(params: &Vec<RuleParam>, args: &Vec<ParamValue>) -> (r: bool)
    ensures
        r == spec_args_match(
            params@.map_values(|p: RuleParam| p@),
            args@.map_values(|v: ParamValue| v@),
        ),
{
    let ghost ps = params@.map_values(|p: RuleParam| p@);
    let ghost vs = args@.map_values(|v: ParamValue| v@);
    if args.len() != params.len() {
        return false;
    }
    let mut i: usize = 0;
    while i < params.len()
        invariant
            0 <= i <= params.len(),
            params.len() == args.len(),
            ps == params@.map_values(|p: RuleParam| p@),
            vs == args@.map_values(|v: ParamValue| v@),
            ps.len() == params@.len(),
            vs.len() == args@.len(),
            forall|j: int| 0 <= j < i ==> spec_value_matches(ps[j].param_type, #[trigger] vs[j]),
        decreases params.len() - i,
    {
        let ok = crate::rule_param::value_matches(&params[i].param_type, &args[i]);
        proof {
            assert(ps[i as int] == params@[i as int]@);
            assert(vs[i as int] == args@[i as int]@);
        }
        if !ok {
            return false;
        }
        i = i + 1;
    }
    true
}

/// Emit the `myRule` element: the body template wrapped under the rule's
/// name, marked external.
fn write_rule_body(name: &String, body: &String, sink: &mut String)
    ensures
        final(sink)@ == old(sink)@ + spec_tag("myRule"@, spec_rule_body(name@, body@)),
{
    let mut text = String::from_str("@external ");
    text.append(name.as_str());
    text.append(" { ");
    text.append(body.as_str());
    text.append(" }");
    proof {
        assert(text@ =~= spec_rule_body(name@, body@));
    }
    write_tag(sink, "myRule", text.as_str());
}

/// Emit the `RHostAddr_PI` block.
fn write_rhost_addr(instance: &RuleInstance, sink: &mut String)
    ensures
        final(sink)@ == old(sink)@ + spec_rhost_addr(
            instance@.host_addr,
            instance@.rods_zone,
            instance@.port,
        ),
{
    let ghost sink0 = sink@;
    write_start(sink, "RHostAddr_PI");
    write_tag_fmt(sink, "hostAddr", instance.host_addr.as_str());
    match &instance.rods_zone {
        Some(zone) => write_tag(sink, "rodsZone", zone.as_str()),
        None => write_tag(sink, "rodsZone", ""),
    }
    let port_text = u64_to_dec(instance.port as u64);
    write_tag_fmt(sink, "port", port_text.as_str());
    write_tag(sink, "dummyInt", "0");
    write_end(sink, "RHostAddr_PI");
    proof {
        reveal_strlit("");
        assert(""@ =~= Seq::<char>::empty());
        assert(sink@ =~= sink0 + spec_rhost_addr(
            instance@.host_addr,
            instance@.rods_zone,
            instance@.port,
        ));
    }
}

/// Emit the `KeyValPair_PI` block.
fn write_kvp(instance: &RuleInstance, sink: &mut String)
    ensures
        final(sink)@ == old(sink)@ + spec_kvp(instance@.instance_name),
{
    let ghost sink0 = sink@;
    write_start(sink, "KeyValPair_PI");
    match &instance.instance_name {
        Some(inst) => {
            write_tag(sink, "ssLen", "1");
            write_tag(sink, "keyWord", "instance_name");
            write_tag(sink, "svalue", inst.as_str());
        },
        None => {
            write_tag(sink, "ssLen", "0");
        },
    }
    write_end(sink, "KeyValPair_PI");
    proof {
        assert(sink@ =~= sink0 + spec_kvp(instance@.instance_name));
    }
}

/// Emit the `MsParamArray_PI` block: the parameter count in decimal, the
/// fixed `oprType`, then one `MsParam_PI` block per parameter in order.
fn write_param_array(params: &Vec<RuleParam>, args: &Vec<ParamValue>, sink: &mut String)
    requires
        spec_args_match(
            params@.map_values(|p: RuleParam| p@),
            args@.map_values(|v: ParamValue| v@),
        ),
    ensures
        final(sink)@ == old(sink)@ + spec_param_array(
            params@.map_values(|p: RuleParam| p@),
            args@.map_values(|v: ParamValue| v@),
        ),
{
    let ghost sink0 = sink@;
    let ghost ps = params@.map_values(|p: RuleParam| p@);
    let ghost vs = args@.map_values(|v: ParamValue| v@);
    write_start(sink, "MsParamArray_PI");
    let n_text = u64_to_dec(params.len() as u64);
    write_tag(sink, "paramLen", n_text.as_str());
    write_tag(sink, "oprType", "0");
    let ghost arr_base = sink@;
    let mut k: usize = 0;
    while k < params.len()
        invariant
            0 <= k <= params.len(),
            params.len() == args.len(),
            ps == params@.map_values(|p: RuleParam| p@),
            vs == args@.map_values(|v: ParamValue| v@),
            ps.len() == params@.len(),
            vs.len() == args@.len(),
            sink@ == arr_base + spec_params_doc(ps.take(k as int), vs.take(k as int)),
        decreases params.len() - k,
    {
        RuleParam::tokify(&params[k], &args[k], sink);
        proof {
            assert(ps.take(k as int + 1).drop_last() =~= ps.take(k as int));
            assert(vs.take(k as int + 1).drop_last() =~= vs.take(k as int));
            assert(ps.take(k as int + 1).last() == ps[k as int]);
            assert(vs.take(k as int + 1).last() == vs[k as int]);
            assert(ps[k as int] == params@[k as int]@);
            assert(vs[k as int] == args@[k as int]@);
            assert(sink@ =~= arr_base + spec_params_doc(
                ps.take(k as int + 1),
                vs.take(k as int + 1),
            ));
        }
        k = k + 1;
    }
    write_end(sink, "MsParamArray_PI");
    proof {
        assert(ps.take(ps.len() as int) =~= ps);
        assert(vs.take(vs.len() as int) =~= vs);
        assert(sink@ =~= sink0 + spec_param_array(ps, vs));
    }
}

impl Rule {
    /// Serialize one instance of this rule into the sink, appending exactly
    /// the wire document. The sink is an in-memory buffer, so the emission
    /// has no failure mode of its own.
    pub fn to_xml(&self, instance: &RuleInstance, sink: &mut String)
        requires
            spec_args_match(self@.params, instance@.args),
        ensures
            final(sink)@ == old(sink)@ + spec_request_doc(self@, instance@),
    {
        let ghost sink0 = sink@;
        write_start(sink, "ExecMyRuleInp_PI");
        write_rule_body(&self.name, &self.body, sink);
        write_rhost_addr(instance, sink);
        write_kvp(instance, sink);
        write_tag(sink, "outParamDesc", self.output.wire_name());
        write_param_array(&self.params, &instance.args, sink);
        write_end(sink, "ExecMyRuleInp_PI");
        proof {
            assert(sink@ =~= sink0 + spec_request_doc(self@, instance@));
        }
    }

    /// Serialize one instance of this rule, or report that the instance's
    /// values do not fit the parameter signature: the result is the wire
    /// document exactly when they fit.
    pub fn try_to_xml(&self, instance: &RuleInstance) -> (r: Option<String>)
        ensures
            r is Some <==> spec_args_match(self@.params, instance@.args),
            r matches Some(doc) ==> doc@ == spec_request_doc(self@, instance@),
    {
        if args_match(&self.params, &instance.args) {
            let mut sink = String::new();
            self.to_xml(instance, &mut sink);
            Some(sink)
        } else {
            None
        }
    }
}

/// Every character of a decimal digit string passes through escaping
/// unchanged.
proof fn lemma_digit_plain(d: nat)
    requires
        d < 10,
    ensures
        crate::write_utils::spec_plain_char(crate::num_text::spec_digit(d)),
{
    reveal_strlit("0123456789");
}

proof fn lemma_dec_nat_plain(n: nat)
    ensures
        forall|i: int|
            0 <= i < spec_dec_nat(n).len() ==> crate::write_utils::spec_plain_char(
                #[trigger] spec_dec_nat(n)[i],
            ),
    decreases n,
{
    if n < 10 {
        lemma_digit_plain(n);
        assert(spec_dec_nat(n) == seq![crate::num_text::spec_digit(n)]);
        assert(spec_dec_nat(n)[0] == crate::num_text::spec_digit(n));
    } else {
        lemma_dec_nat_plain(n / 10);
        lemma_digit_plain(n % 10);
        assert forall|i: int| 0 <= i < spec_dec_nat(n).len() implies crate::write_utils::spec_plain_char(
            #[trigger] spec_dec_nat(n)[i],
        ) by {
            if i < spec_dec_nat(n / 10).len() {
                assert(spec_dec_nat(n)[i] == spec_dec_nat(n / 10)[i]);
            } else {
                assert(spec_dec_nat(n)[i] == crate::num_text::spec_digit(n % 10));
            }
        }
    }
}

/// A decimal digit string is written verbatim even through an escaping text
/// node.
pub proof fn lemma_escape_dec_nat(n: nat)
    ensures
        crate::write_utils::spec_escape(spec_dec_nat(n)) == spec_dec_nat(n),
{
    lemma_dec_nat_plain(n);
    crate::write_utils::lemma_escape_plain(spec_dec_nat(n));
}

/// The parameter blocks, one per parameter: block `i` is the `MsParam_PI`
/// block of parameter `i` carrying value `i`.
pub open spec fn spec_param_blocks(ps: Seq<RuleParamModel>, vs: Seq<ParamValueModel>) -> Seq<
    Seq<char>,
> {
    Seq::new(ps.len(), |i: int| crate::rule_param::spec_ms_param(ps[i], vs[i]))
}

/// Parameter-count fidelity: for `N` parameters the array block carries
/// exactly `N` parameter blocks — its parameter section is the flattening of
/// one `MsParam_PI` block per parameter — the `paramLen` element's text is
/// exactly the decimal string of `N`, and the `oprType` element's text is
/// exactly `0`, whatever the parameters and values are.
pub proof fn lemma_param_array_shape(ps: Seq<RuleParamModel>, vs: Seq<ParamValueModel>)
    requires
        vs.len() == ps.len(),
    ensures
        spec_param_blocks(ps, vs).len() == ps.len(),
        spec_params_doc(ps, vs) == spec_param_blocks(ps, vs).flatten(),
        spec_param_array(ps, vs) == spec_open("MsParamArray_PI"@) + (spec_open("paramLen"@)
            + spec_dec_nat(ps.len()) + spec_close("paramLen"@)) + (spec_open("oprType"@) + "0"@
            + spec_close("oprType"@)) + spec_params_doc(ps, vs) + spec_close("MsParamArray_PI"@),
    decreases ps.len(),
{
    lemma_escape_dec_nat(ps.len());
    reveal_strlit("0");
    crate::write_utils::lemma_escape_plain("0"@);
    spec_param_blocks(ps, vs).lemma_flatten_and_flatten_alt_are_equivalent();
    if ps.len() == 0 {
        assert(spec_param_blocks(ps, vs).flatten_alt() =~= Seq::<char>::empty());
        assert(spec_param_array(ps, vs) =~= spec_open("MsParamArray_PI"@) + (spec_open(
            "paramLen"@,
        ) + spec_dec_nat(ps.len()) + spec_close("paramLen"@)) + (spec_open("oprType"@) + "0"@
            + spec_close("oprType"@)) + spec_params_doc(ps, vs) + spec_close("MsParamArray_PI"@));
    } else {
        lemma_param_array_shape(ps.drop_last(), vs.drop_last());
        assert(spec_param_blocks(ps.drop_last(), vs.drop_last()) =~= spec_param_blocks(
            ps,
            vs,
        ).drop_last());
        spec_param_blocks(ps.drop_last(), vs.drop_last()).lemma_flatten_and_flatten_alt_are_equivalent();
        assert(spec_params_doc(ps, vs) == spec_params_doc(ps.drop_last(), vs.drop_last())
            + crate::rule_param::spec_ms_param(ps.last(), vs.last()));
        assert(spec_param_blocks(ps, vs).flatten_alt() == spec_param_blocks(ps, vs).drop_last().flatten_alt()
            + spec_param_blocks(ps, vs).last());
        assert(spec_param_blocks(ps, vs).last() == crate::rule_param::spec_ms_param(
            ps.last(),
            vs.last(),
        ));
        assert(spec_param_array(ps, vs) =~= spec_open("MsParamArray_PI"@) + (spec_open(
            "paramLen"@,
        ) + spec_dec_nat(ps.len()) + spec_close("paramLen"@)) + (spec_open("oprType"@) + "0"@
            + spec_close("oprType"@)) + spec_params_doc(ps, vs) + spec_close("MsParamArray_PI"@));
    }
}

/// Fixed-value invariant of the address block: the `dummyInt` element's text
/// is exactly `0`, whatever the address, zone and port are.
pub proof fn lemma_fixed_dummy_int(host: Seq<char>, zone: Option<Seq<char>>, port: u16)
    ensures
        spec_rhost_addr(host, zone, port) == spec_open("RHostAddr_PI"@) + spec_tag_fmt(
            "hostAddr"@,
            host,
        ) + spec_tag(
            "rodsZone"@,
            match zone {
                Some(z) => z,
                None => Seq::empty(),
            },
        ) + spec_tag_fmt("port"@, spec_dec_nat(port as nat)) + (spec_open("dummyInt"@) + "0"@
            + spec_close("dummyInt"@)) + spec_close("RHostAddr_PI"@),
{
    reveal_strlit("0");
    crate::write_utils::lemma_escape_plain("0"@);
    assert(spec_rhost_addr(host, zone, port) =~= spec_open("RHostAddr_PI"@) + spec_tag_fmt(
        "hostAddr"@,
        host,
    ) + spec_tag(
        "rodsZone"@,
        match zone {
            Some(z) => z,
            None => Seq::empty(),
        },
    ) + spec_tag_fmt("port"@, spec_dec_nat(port as nat)) + (spec_open("dummyInt"@) + "0"@
        + spec_close("dummyInt"@)) + spec_close("RHostAddr_PI"@));
}

/// The conditional key/value block: with an instance identifier it carries
/// `ssLen` text exactly `1`, the fixed key `instance_name` and the identifier
/// as `svalue`; without one it carries only `ssLen` text exactly `0` and no
/// `keyWord` or `svalue` element.
pub proof fn lemma_kvp_conditional(instance: Option<Seq<char>>)
    ensures
        instance matches Some(i) ==> spec_kvp(instance) == spec_open("KeyValPair_PI"@) + (
        spec_open("ssLen"@) + "1"@ + spec_close("ssLen"@)) + (spec_open("keyWord"@)
            + "instance_name"@ + spec_close("keyWord"@)) + spec_tag("svalue"@, i) + spec_close(
            "KeyValPair_PI"@,
        ),
        instance is None ==> spec_kvp(instance) == spec_open("KeyValPair_PI"@) + (spec_open(
            "ssLen"@,
        ) + "0"@ + spec_close("ssLen"@)) + spec_close("KeyValPair_PI"@),
{
    reveal_strlit("0");
    reveal_strlit("1");
    reveal_strlit("instance_name");
    crate::write_utils::lemma_escape_plain("0"@);
    crate::write_utils::lemma_escape_plain("1"@);
    crate::write_utils::lemma_escape_plain("instance_name"@);
    match instance {
        Some(i) => {
            assert(spec_kvp(instance) =~= spec_open("KeyValPair_PI"@) + (spec_open("ssLen"@)
                + "1"@ + spec_close("ssLen"@)) + (spec_open("keyWord"@) + "instance_name"@
                + spec_close("keyWord"@)) + spec_tag("svalue"@, i) + spec_close(
                "KeyValPair_PI"@,
            ));
        },
        None => {
            assert(spec_kvp(instance) =~= spec_open("KeyValPair_PI"@) + (spec_open("ssLen"@)
                + "0"@ + spec_close("ssLen"@)) + spec_close("KeyValPair_PI"@));
        },
    }
}

/// Fixed-value invariants of the whole request document: whatever the rule
/// and the instance, the `dummyInt` element and the `oprType` element each
/// carry exactly the text `0`.
pub proof fn lemma_request_fixed_values(r: RuleModel, inst: RuleInstanceModel)
    requires
        inst.args.len() == r.params.len(),
    ensures
        spec_request_doc(r, inst) == spec_open("ExecMyRuleInp_PI"@) + spec_tag(
            "myRule"@,
            spec_rule_body(r.name, r.body),
        ) + (spec_open("RHostAddr_PI"@) + spec_tag_fmt("hostAddr"@, inst.host_addr) + spec_tag(
            "rodsZone"@,
            match inst.rods_zone {
                Some(z) => z,
                None => Seq::empty(),
            },
        ) + spec_tag_fmt("port"@, spec_dec_nat(inst.port as nat)) + (spec_open("dummyInt"@) + "0"@
            + spec_close("dummyInt"@)) + spec_close("RHostAddr_PI"@)) + spec_kvp(
            inst.instance_name,
        ) + spec_tag("outParamDesc"@, spec_output_wire(r.output)) + (spec_open("MsParamArray_PI"@)
            + (spec_open("paramLen"@) + spec_dec_nat(r.params.len()) + spec_close("paramLen"@)) + (
        spec_open("oprType"@) + "0"@ + spec_close("oprType"@)) + spec_params_doc(
            r.params,
            inst.args,
        ) + spec_close("MsParamArray_PI"@)) + spec_close("ExecMyRuleInp_PI"@),
{
    lemma_fixed_dummy_int(inst.host_addr, inst.rods_zone, inst.port);
    lemma_param_array_shape(r.params, inst.args);
    assert(spec_request_doc(r, inst) =~= spec_open("ExecMyRuleInp_PI"@) + spec_tag(
        "myRule"@,
        spec_rule_body(r.name, r.body),
    ) + spec_rhost_addr(inst.host_addr, inst.rods_zone, inst.port) + spec_kvp(inst.instance_name)
        + spec_tag("outParamDesc"@, spec_output_wire(r.output)) + spec_param_array(
        r.params,
        inst.args,
    ) + spec_close("ExecMyRuleInp_PI"@));
}

} // verus!
