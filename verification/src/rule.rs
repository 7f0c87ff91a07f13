//! The target record's shape, the schema validator, and the generation step
//! that turns a parsed declaration plus a target record into a validated
//! `Rule`.
//!
//! Validation confirms the record has named fields, that a declared `params`
//! list structurally matches the record's fields, and that the multiset of
//! variable placeholders in the body template — a `*` marker followed by an
//! identifier — agrees with the parameter labels, order not required.
//! Generation then resolves the output type against the registered table and
//! maps every field type, failing on the first field without a mapping.

use vstd::prelude::*;

use crate::diag::{Diag, DiagKind, DiagKindModel, DiagModel};
use crate::rule_param::{RuleParam, RuleParamModel};

verus! {

/// One named field of the target record: its name and its host scalar type's
/// name, absent when the declaration form supplies types through `params`.
#[derive(Debug, PartialEq, Eq)]
pub struct RecordField {
    pub name: String,
    pub ty: Option<String>,
}

/// The mathematical content of a record field.
pub struct RecordFieldModel {
    pub name: Seq<char>,
    pub ty: Option<Seq<char>>,
}

impl View for RecordField {
    type V = RecordFieldModel;

    open spec fn view(&self) -> RecordFieldModel {
        RecordFieldModel {
            name: self.name@,
            ty: match &self.ty {
                Some(t) => Some(t@),
                None => None,
            },
        }
    }
}

/// The target record's shape: its ordered named fields, or nothing when the
/// record does not have named fields.
#[derive(Debug, PartialEq, Eq)]
pub struct TargetRecord {
    pub fields: Option<Vec<RecordField>>,
}

/// The mathematical content of a target record.
pub struct TargetRecordModel {
    pub fields: Option<Seq<RecordFieldModel>>,
}

impl View for TargetRecord {
    type V = TargetRecordModel;

    open spec fn view(&self) -> TargetRecordModel {
        TargetRecordModel {
            fields: match &self.fields {
                Some(fs) => Some(fs@.map_values(|f: RecordField| f@)),
                None => None,
            },
        }
    }
}

/// Whether a character may begin a placeholder identifier.
pub open spec fn spec_is_ident_start(c: char) -> bool {
    ((c as u32) >= ('a' as u32) && (c as u32) <= ('z' as u32)) || ((c as u32) >= ('A' as u32) && (
    c as u32) <= ('Z' as u32)) || c == '_'
}

/// Whether a character may continue a placeholder identifier.
pub open spec fn spec_is_ident_char(c: char) -> bool {
    spec_is_ident_start(c) || ((c as u32) >= ('0' as u32) && (c as u32) <= ('9' as u32))
}

/// The placeholders of the body template from position `i` onward, outside
/// any placeholder.
pub open spec fn spec_ph_scan(s: Seq<char>, i: int) -> Seq<Seq<char>>
    decreases s.len() - i, 0int,
{
    if i >= s.len() {
        Seq::empty()
    } else if s[i] == '*' {
        spec_ph_after_star(s, i + 1)
    } else {
        spec_ph_scan(s, i + 1)
    }
}

/// The placeholders from position `i` onward, where position `i - 1` held the
/// `*` marker.
pub open spec fn spec_ph_after_star(s: Seq<char>, i: int) -> Seq<Seq<char>>
    decreases s.len() - i, 1int,
{
    if i >= s.len() {
        Seq::empty()
    } else if spec_is_ident_start(s[i]) {
        spec_ph_ident(s, i + 1, seq![s[i]])
    } else {
        spec_ph_scan(s, i)
    }
}

/// The placeholders from position `i` onward, inside a placeholder whose
/// characters so far are `cur`.
pub open spec fn spec_ph_ident(s: Seq<char>, i: int, cur: Seq<char>) -> Seq<Seq<char>>
    decreases s.len() - i, 1int,
{
    if i >= s.len() {
        seq![cur]
    } else if spec_is_ident_char(s[i]) {
        spec_ph_ident(s, i + 1, cur.push(s[i]))
    } else {
        seq![cur] + spec_ph_scan(s, i)
    }
}

/// The variable placeholders of a body template, in order of occurrence: each
/// maximal identifier following a `*` marker.
pub open spec fn spec_placeholders(s: Seq<char>) -> Seq<Seq<char>> {
    spec_ph_scan(s, 0)
}

/// How often a name occurs in a list of names.
pub open spec fn spec_count(xs: Seq<Seq<char>>, x: Seq<char>) -> nat
    decreases xs.len(),
{
    if xs.len() == 0 {
        0
    } else {
        (if xs[0] == x {
            1nat
        } else {
            0nat
        }) + spec_count(xs.drop_first(), x)
    }
}

/// Whether two lists of names hold the same names with the same
/// multiplicities, in any order.
pub open spec fn spec_same_multiset(a: Seq<Seq<char>>, b: Seq<Seq<char>>) -> bool {
    forall|x: Seq<char>| #![trigger spec_count(a, x)] #![trigger spec_count(b, x)] spec_count(a, x)
        == spec_count(b, x)
}

proof fn lemma_count_push(xs: Seq<Seq<char>>, e: Seq<char>, x: Seq<char>)
    ensures
        spec_count(xs.push(e), x) == spec_count(xs, x) + (if e == x {
            1nat
        } else {
            0nat
        }),
    decreases xs.len(),
{
    assert(xs.push(e).len() == xs.len() + 1);
    if xs.len() == 0 {
        assert(xs.push(e).drop_first() =~= Seq::<Seq<char>>::empty());
        assert(xs.push(e)[0] == e);
        assert(spec_count(xs.push(e), x) == (if e == x {
            1nat
        } else {
            0nat
        }) + spec_count(Seq::<Seq<char>>::empty(), x));
        assert(spec_count(Seq::<Seq<char>>::empty(), x) == 0);
    } else {
        assert(xs.push(e).drop_first() =~= xs.drop_first().push(e));
        assert(xs.push(e)[0] == xs[0]);
        lemma_count_push(xs.drop_first(), e, x);
        assert(spec_count(xs.push(e), x) == (if xs[0] == x {
            1nat
        } else {
            0nat
        }) + spec_count(xs.drop_first().push(e), x));
    }
}

proof fn lemma_count_zero_iff_absent(xs: Seq<Seq<char>>, x: Seq<char>)
    ensures
        spec_count(xs, x) == 0 <==> forall|j: int| 0 <= j < xs.len() ==> xs[j] != x,
    decreases xs.len(),
{
    if xs.len() == 0 {
    } else {
        lemma_count_zero_iff_absent(xs.drop_first(), x);
        assert forall|j: int| 1 <= j < xs.len() implies xs.drop_first()[j - 1] == xs[j] by {}
        if spec_count(xs, x) == 0 {
            assert forall|j: int| 0 <= j < xs.len() implies xs[j] != x by {
                if j >= 1 {
                    assert(xs[j] == xs.drop_first()[j - 1]);
                }
            }
        } else {
            if xs[0] != x {
                assert(spec_count(xs.drop_first(), x) > 0);
                let j = choose|j: int| 0 <= j < xs.drop_first().len() && xs.drop_first()[j] == x;
                assert(xs[j + 1] == x);
            }
        }
    }
}

/// The names carried by a list of character vectors.
pub open spec fn names_view(xs: Seq<Vec<char>>) -> Seq<Seq<char>> {
    xs.map_values(|v: Vec<char>| v@)
}

fn str_chars(s: &str) -> (v: Vec<char>)
    ensures
        v@ == s@,
{
    let n = s.unicode_len();
    let mut v: Vec<char> = Vec::new();
    let mut i: usize = 0;
    while i < n
        invariant
            0 <= i <= n,
            n == s@.len(),
            v@ == s@.take(i as int),
        decreases n - i,
    {
        v.push(s.get_char(i));
        proof {
            assert(s@.take(i as int + 1) =~= s@.take(i as int).push(s@[i as int]));
        }
        i = i + 1;
    }
    proof {
        assert(s@.take(n as int) =~= s@);
    }
    v
}

fn is_ident_start(c: char) -> (r: bool)
    ensures
        r == spec_is_ident_start(c),
{
    ((c as u32) >= ('a' as u32) && (c as u32) <= ('z' as u32)) || ((c as u32) >= ('A' as u32) && (
    c as u32) <= ('Z' as u32)) || c == '_'
}

fn is_ident_char(c: char) -> (r: bool)
    ensures
        r == spec_is_ident_char(c),
{
    is_ident_start(c) || ((c as u32) >= ('0' as u32) && (c as u32) <= ('9' as u32))
}

fn ph_scan(s: &Vec<char>, i: usize, acc: Vec<Vec<char>>) -> (r: Vec<Vec<char>>)
    ensures
        names_view(r@) == names_view(acc@) + spec_ph_scan(s@, i as int),
    decreases s@.len() - i, 0int,
{
    if i >= s.len() {
        proof {
            assert(names_view(acc@) + spec_ph_scan(s@, i as int) =~= names_view(acc@));
        }
        acc
    } else if s[i] == '*' {
        ph_after_star(s, i + 1, acc)
    } else {
        ph_scan(s, i + 1, acc)
    }
}

fn ph_after_star(s: &Vec<char>, i: usize, acc: Vec<Vec<char>>) -> (r: Vec<Vec<char>>)
    ensures
        names_view(r@) == names_view(acc@) + spec_ph_after_star(s@, i as int),
    decreases s@.len() - i, 1int,
{
    if i >= s.len() {
        proof {
            assert(names_view(acc@) + spec_ph_after_star(s@, i as int) =~= names_view(acc@));
        }
        acc
    } else if is_ident_start(s[i]) {
        let mut cur: Vec<char> = Vec::new();
        cur.push(s[i]);
        proof {
            assert(cur@ =~= seq![s@[i as int]]);
        }
        ph_ident(s, i + 1, cur, acc)
    } else {
        ph_scan(s, i, acc)
    }
}

fn ph_ident(s: &Vec<char>, i: usize, cur: Vec<char>, acc: Vec<Vec<char>>) -> (r: Vec<Vec<char>>)
    ensures
        names_view(r@) == names_view(acc@) + spec_ph_ident(s@, i as int, cur@),
    decreases s@.len() - i, 1int,
{
    if i >= s.len() {
        let ghost curv = cur@;
        let mut acc2 = acc;
        acc2.push(cur);
        proof {
            assert(names_view(acc2@) =~= names_view(acc@).push(curv));
            assert(names_view(acc@).push(curv) =~= names_view(acc@) + spec_ph_ident(
                s@,
                i as int,
                curv,
            ));
        }
        acc2
    } else if is_ident_char(s[i]) {
        let c = s[i];
        let ghost curv = cur@;
        let mut cur2 = cur;
        cur2.push(c);
        proof {
            assert(cur2@ == curv.push(s@[i as int]));
        }
        ph_ident(s, i + 1, cur2, acc)
    } else {
        let ghost curv = cur@;
        let mut acc2 = acc;
        acc2.push(cur);
        proof {
            assert(names_view(acc2@) =~= names_view(acc@).push(curv));
        }
        let r = ph_scan(s, i, acc2);
        proof {
            assert(names_view(acc@).push(curv) + spec_ph_scan(s@, i as int) =~= names_view(acc@)
                + (seq![curv] + spec_ph_scan(s@, i as int)));
        }
        r
    }
}

/// Extract the body template's variable placeholders, in order of occurrence.
pub fn placeholders(body: &str) -> (r: Vec<Vec<char>>)
    ensures
        names_view(r@) == spec_placeholders(body@),
{
    let chars = str_chars(body);
    let acc: Vec<Vec<char>> = Vec::new();
    proof {
        assert(names_view(acc@) =~= Seq::<Seq<char>>::empty());
    }
    let r = ph_scan(&chars, 0, acc);
    proof {
        assert(names_view(r@) =~= spec_placeholders(body@));
    }
    r
}

fn chars_eq(a: &Vec<char>, b: &Vec<char>) -> (r: bool)
    ensures
        r == (a@ == b@),
{
    if a.len() != b.len() {
        proof {
            assert(a@ != b@) by {
                if a@ == b@ {
                    assert(a@.len() == b@.len());
                }
            }
        }
        return false;
    }
    let mut i: usize = 0;
    while i < a.len()
        invariant
            0 <= i <= a@.len(),
            a@.len() == b@.len(),
            forall|j: int| 0 <= j < i ==> a@[j] == b@[j],
        decreases a@.len() - i,
    {
        if a[i] != b[i] {
            proof {
                assert(a@ != b@) by {
                    if a@ == b@ {
                        assert(a@[i as int] == b@[i as int]);
                    }
                }
            }
            return false;
        }
        i = i + 1;
    }
    proof {
        assert(a@ =~= b@);
    }
    true
}

fn count_occ(xs: &Vec<Vec<char>>, x: &Vec<char>) -> (r: usize)
    ensures
        r as nat == spec_count(names_view(xs@), x@),
{
    let mut cnt: usize = 0;
    let mut k: usize = 0;
    while k < xs.len()
        invariant
            0 <= k <= xs@.len(),
            cnt <= k,
            cnt as nat == spec_count(names_view(xs@.take(k as int)), x@),
        decreases xs@.len() - k,
    {
        let eq = chars_eq(&xs[k], x);
        proof {
            assert(names_view(xs@.take(k as int + 1)) =~= names_view(xs@.take(k as int)).push(
                xs@[k as int]@,
            ));
            lemma_count_push(names_view(xs@.take(k as int)), xs@[k as int]@, x@);
        }
        if eq {
            cnt = cnt + 1;
        }
        k = k + 1;
    }
    proof {
        assert(xs@.take(xs@.len() as int) =~= xs@);
    }
    cnt
}

fn same_multiset(a: &Vec<Vec<char>>, b: &Vec<Vec<char>>) -> (r: bool)
    ensures
        r == spec_same_multiset(names_view(a@), names_view(b@)),
{
    let ghost am = names_view(a@);
    let ghost bm = names_view(b@);
    let mut i: usize = 0;
    while i < a.len()
        invariant
            0 <= i <= a@.len(),
            am == names_view(a@),
            bm == names_view(b@),
            forall|j: int| 0 <= j < i ==> spec_count(am, #[trigger] am[j]) == spec_count(bm, am[j]),
        decreases a@.len() - i,
    {
        let ca = count_occ(a, &a[i]);
        let cb = count_occ(b, &a[i]);
        if ca != cb {
            proof {
                assert(am[i as int] == a@[i as int]@);
                assert(spec_count(am, am[i as int]) != spec_count(bm, am[i as int]));
            }
            return false;
        }
        i = i + 1;
    }
    let mut j: usize = 0;
    while j < b.len()
        invariant
            0 <= j <= b@.len(),
            am == names_view(a@),
            bm == names_view(b@),
            forall|k: int| 0 <= k < am.len() ==> spec_count(am, #[trigger] am[k]) == spec_count(
                bm,
                am[k],
            ),
            forall|k: int| 0 <= k < j ==> spec_count(am, #[trigger] bm[k]) == spec_count(bm, bm[k]),
        decreases b@.len() - j,
    {
        let ca = count_occ(a, &b[j]);
        let cb = count_occ(b, &b[j]);
        if ca != cb {
            proof {
                assert(bm[j as int] == b@[j as int]@);
                assert(spec_count(am, bm[j as int]) != spec_count(bm, bm[j as int]));
            }
            return false;
        }
        j = j + 1;
    }
    proof {
        assert forall|x: Seq<char>| spec_count(am, x) == spec_count(bm, x) by {
            lemma_count_zero_iff_absent(am, x);
            lemma_count_zero_iff_absent(bm, x);
            if spec_count(am, x) > 0 {
                let k = choose|k: int| 0 <= k < am.len() && am[k] == x;
                assert(spec_count(am, am[k]) == spec_count(bm, am[k]));
            } else if spec_count(bm, x) > 0 {
                let k = choose|k: int| 0 <= k < bm.len() && bm[k] == x;
                assert(spec_count(am, bm[k]) == spec_count(bm, bm[k]));
            }
        }
    }
    true
}

/// The labels of a declared parameter list.
pub open spec fn spec_labels_of_params(ps: Seq<RuleParamModel>) -> Seq<Seq<char>> {
    ps.map_values(|p: RuleParamModel| p.label)
}

/// The names of the record's fields.
pub open spec fn spec_field_names(fs: Seq<RecordFieldModel>) -> Seq<Seq<char>> {
    fs.map_values(|f: RecordFieldModel| f.name)
}

/// Whether a declared parameter list structurally matches the record's
/// fields: same count, same names, in order.
pub open spec fn spec_params_fields_agree(
    ps: Seq<RuleParamModel>,
    fs: Seq<RecordFieldModel>,
) -> bool {
    ps.len() == fs.len() && forall|i: int| 0 <= i < ps.len() ==> #[trigger] ps[i].label == fs[
        i
    ].name
}

/// The labels the body template's placeholders are matched against: the
/// declared parameter labels when a `params` list is present, the record's
/// field names otherwise.
pub open spec fn spec_effective_labels(sm: crate::rule_input::RuleSpecModel, fs: Seq<
    RecordFieldModel,
>) -> Seq<Seq<char>> {
    match sm.params {
        Some(ps) => spec_labels_of_params(ps),
        None => spec_field_names(fs),
    }
}

/// The schema validator's result: the first failing check, or nothing.
/// The checks, in order: the record has named fields; a declared `params`
/// list matches the fields; the placeholder multiset matches the labels.
pub open spec fn spec_validate(
    sm: crate::rule_input::RuleSpecModel,
    rm: TargetRecordModel,
) -> Option<DiagModel> {
    match rm.fields {
        None => Some(DiagModel { kind: DiagKindModel::UnnamedFields, pos: 0 }),
        Some(fs) => {
            if sm.params matches Some(ps) && !spec_params_fields_agree(ps, fs) {
                Some(DiagModel { kind: DiagKindModel::ParamsFieldsMismatch, pos: 0 })
            } else if !spec_same_multiset(
                spec_placeholders(sm.body),
                spec_effective_labels(sm, fs),
            ) {
                Some(DiagModel { kind: DiagKindModel::PlaceholderMismatch, pos: 0 })
            } else {
                None
            }
        },
    }
}

fn params_fields_agree(ps: &Vec<RuleParam>, fs: &Vec<RecordField>) -> (r: bool)
    ensures
        r == spec_params_fields_agree(
            ps@.map_values(|p: RuleParam| p@),
            fs@.map_values(|f: RecordField| f@),
        ),
{
    let ghost pm = ps@.map_values(|p: RuleParam| p@);
    let ghost fm = fs@.map_values(|f: RecordField| f@);
    if ps.len() != fs.len() {
        return false;
    }
    let mut i: usize = 0;
    while i < ps.len()
        invariant
            0 <= i <= ps@.len(),
            ps@.len() == fs@.len(),
            pm == ps@.map_values(|p: RuleParam| p@),
            fm == fs@.map_values(|f: RecordField| f@),
            pm.len() == ps@.len(),
            fm.len() == fs@.len(),
            forall|j: int| 0 <= j < i ==> #[trigger] pm[j].label == fm[j].name,
        decreases ps@.len() - i,
    {
        if !crate::kw::string_eq(&ps[i].label, &fs[i].name) {
            proof {
                assert(pm[i as int].label == ps@[i as int]@.label);
                assert(fm[i as int].name == fs@[i as int]@.name);
            }
            return false;
        }
        i = i + 1;
    }
    true
}

fn labels_of_params(ps: &Vec<RuleParam>) -> (r: Vec<Vec<char>>)
    ensures
        names_view(r@) == spec_labels_of_params(ps@.map_values(|p: RuleParam| p@)),
{
    let ghost target = spec_labels_of_params(ps@.map_values(|p: RuleParam| p@));
    let mut r: Vec<Vec<char>> = Vec::new();
    let mut i: usize = 0;
    while i < ps.len()
        invariant
            0 <= i <= ps@.len(),
            target == spec_labels_of_params(ps@.map_values(|p: RuleParam| p@)),
            target.len() == ps@.len(),
            names_view(r@) == target.take(i as int),
        decreases ps@.len() - i,
    {
        let cs = str_chars(ps[i].label.as_str());
        let ghost r0 = r@;
        let ghost csv = cs@;
        r.push(cs);
        proof {
            assert(names_view(r@) =~= names_view(r0).push(csv));
            assert(target[i as int] == ps@[i as int]@.label);
            assert(target.take(i as int + 1) =~= target.take(i as int).push(target[i as int]));
        }
        i = i + 1;
    }
    proof {
        assert(target.take(target.len() as int) =~= target);
    }
    r
}

fn names_of_fields(fs: &Vec<RecordField>) -> (r: Vec<Vec<char>>)
    ensures
        names_view(r@) == spec_field_names(fs@.map_values(|f: RecordField| f@)),
{
    let ghost target = spec_field_names(fs@.map_values(|f: RecordField| f@));
    let mut r: Vec<Vec<char>> = Vec::new();
    let mut i: usize = 0;
    while i < fs.len()
        invariant
            0 <= i <= fs@.len(),
            target == spec_field_names(fs@.map_values(|f: RecordField| f@)),
            target.len() == fs@.len(),
            names_view(r@) == target.take(i as int),
        decreases fs@.len() - i,
    {
        let cs = str_chars(fs[i].name.as_str());
        let ghost r0 = r@;
        let ghost csv = cs@;
        r.push(cs);
        proof {
            assert(names_view(r@) =~= names_view(r0).push(csv));
            assert(target[i as int] == fs@[i as int]@.name);
            assert(target.take(i as int + 1) =~= target.take(i as int).push(target[i as int]));
        }
        i = i + 1;
    }
    proof {
        assert(target.take(target.len() as int) =~= target);
    }
    r
}

/// Cross-check a parsed declaration against the target record's shape: the
/// record must have named fields, a declared `params` list must match them,
/// and the body template's placeholders must agree with the labels as a
/// multiset.
pub fn validate(spec: &crate::rule_input::RuleSpec, record: &TargetRecord) -> (r: Option<Diag>)
    ensures
        match spec_validate(spec@, record@) {
            Some(dm) => r matches Some(d) && d@ == dm,
            None => r is None,
        },
{
    match &record.fields {
        None => Some(Diag { kind: DiagKind::UnnamedFields, pos: 0 }),
        Some(fields) => {
            match &spec.params {
                Some(ps) => {
                    if !params_fields_agree(ps, fields) {
                        return Some(Diag { kind: DiagKind::ParamsFieldsMismatch, pos: 0 });
                    }
                },
                None => {},
            }
            let phs = placeholders(spec.body.as_str());
            let labels = match &spec.params {
                Some(ps) => labels_of_params(ps),
                None => names_of_fields(fields),
            };
            if !same_multiset(&phs, &labels) {
                return Some(Diag { kind: DiagKind::PlaceholderMismatch, pos: 0 });
            }
            None
        },
    }
}

/// The effective parameter list of an inference-based declaration: each field
/// mapped through the type table, in order, failing on the first field whose
/// type is absent or has no mapping and naming that field.
pub open spec fn spec_fields_to_params(fs: Seq<RecordFieldModel>) -> Result<
    Seq<RuleParamModel>,
    DiagModel,
>
    decreases fs.len(),
{
    if fs.len() == 0 {
        Ok(Seq::empty())
    } else {
        let f = fs[0];
        match f.ty {
            None => Err(DiagModel { kind: DiagKindModel::UnmappedFieldType(f.name), pos: 0 }),
            Some(t) => match crate::rule_param_type::spec_host_type_of(t) {
                None => Err(
                    DiagModel { kind: DiagKindModel::UnmappedFieldType(f.name), pos: 0 },
                ),
                Some(pt) => match spec_fields_to_params(fs.drop_first()) {
                    Err(d) => Err(d),
                    Ok(rest) => Ok(
                        seq![RuleParamModel { label: f.name, param_type: pt }] + rest,
                    ),
                },
            },
        }
    }
}

/// Generation: validate, resolve the output type against the registered
/// table, and settle the effective parameter list — the declared one when
/// `params` is present, the mapped fields otherwise.
pub open spec fn spec_generate(
    sm: crate::rule_input::RuleSpecModel,
    rm: TargetRecordModel,
) -> Result<crate::serialize::RuleModel, DiagModel> {
    match spec_validate(sm, rm) {
        Some(d) => Err(d),
        None => match crate::exec_rule_out_types::spec_output_type_of(sm.output) {
            None => Err(DiagModel { kind: DiagKindModel::UnsupportedOutput, pos: 0 }),
            Some(out) => match sm.params {
                Some(ps) => Ok(
                    crate::serialize::RuleModel {
                        name: sm.name,
                        output: out,
                        body: sm.body,
                        params: ps,
                    },
                ),
                None => match spec_fields_to_params(rm.fields->0) {
                    Err(d) => Err(d),
                    Ok(ps) => Ok(
                        crate::serialize::RuleModel {
                            name: sm.name,
                            output: out,
                            body: sm.body,
                            params: ps,
                        },
                    ),
                },
            },
        },
    }
}

fn fields_to_params(fs: &Vec<RecordField>, i: usize) -> (r: Result<Vec<RuleParam>, Diag>)
    requires
        i <= fs@.len(),
    ensures
        ({
            let m = spec_fields_to_params(
                fs@.map_values(|f: RecordField| f@).skip(i as int),
            );
            &&& (r is Ok <==> m is Ok)
            &&& (r matches Ok(ps) ==> m matches Ok(pm) && ps@.map_values(|p: RuleParam| p@) == pm)
            &&& (r matches Err(d) ==> m matches Err(dm) && d@ == dm)
        }),
    decreases fs@.len() - i,
{
    let ghost fm = fs@.map_values(|f: RecordField| f@);
    proof {
        assert(fm.len() == fs@.len());
    }
    if i >= fs.len() {
        let empty: Vec<RuleParam> = Vec::new();
        proof {
            assert(fm.skip(i as int) =~= Seq::<RecordFieldModel>::empty());
            assert(empty@.map_values(|p: RuleParam| p@) =~= Seq::<RuleParamModel>::empty());
        }
        Ok(empty)
    } else {
        proof {
            assert(fm.skip(i as int)[0] == fm[i as int]);
            assert(fm.skip(i as int).drop_first() =~= fm.skip(i as int + 1));
        }
        match &fs[i].ty {
            None => Err(
                Diag { kind: DiagKind::UnmappedFieldType(fs[i].name.clone()), pos: 0 },
            ),
            Some(t) => {
                match crate::rule_param_type::host_type_of(t) {
                    None => Err(
                        Diag { kind: DiagKind::UnmappedFieldType(fs[i].name.clone()), pos: 0 },
                    ),
                    Some(pt) => {
                        match fields_to_params(fs, i + 1) {
                            Err(d) => Err(d),
                            Ok(rest) => {
                                let ghost restm = rest@.map_values(|p: RuleParam| p@);
                                let mut ps: Vec<RuleParam> = Vec::new();
                                ps.push(RuleParam { label: fs[i].name.clone(), param_type: pt });
                                let mut k: usize = 0;
                                while k < rest.len()
                                    invariant
                                        0 <= k <= rest@.len(),
                                        restm == rest@.map_values(|p: RuleParam| p@),
                                        restm.len() == rest@.len(),
                                        ps@.len() == k + 1,
                                        ps@.map_values(|p: RuleParam| p@) == seq![
                                            RuleParamModel {
                                                label: fm[i as int].name,
                                                param_type: pt,
                                            },
                                        ] + restm.take(k as int),
                                    decreases rest@.len() - k,
                                {
                                    let ghost ps0 = ps@;
                                    ps.push(
                                        RuleParam {
                                            label: rest[k].label.clone(),
                                            param_type: rest[k].param_type,
                                        },
                                    );
                                    proof {
                                        assert(ps@.map_values(|p: RuleParam| p@)
                                            =~= ps0.map_values(|p: RuleParam| p@).push(
                                            restm[k as int],
                                        ));
                                        assert(seq![
                                            RuleParamModel {
                                                label: fm[i as int].name,
                                                param_type: pt,
                                            },
                                        ] + restm.take(k as int + 1) =~= (seq![
                                            RuleParamModel {
                                                label: fm[i as int].name,
                                                param_type: pt,
                                            },
                                        ] + restm.take(k as int)).push(restm[k as int]));
                                    }
                                    k = k + 1;
                                }
                                proof {
                                    assert(restm.take(restm.len() as int) =~= restm);
                                }
                                Ok(ps)
                            },
                        }
                    },
                }
            },
        }
    }
}

fn clone_params(ps: &Vec<RuleParam>) -> (r: Vec<RuleParam>)
    ensures
        r@.map_values(|p: RuleParam| p@) == ps@.map_values(|p: RuleParam| p@),
{
    let ghost pm = ps@.map_values(|p: RuleParam| p@);
    let mut r: Vec<RuleParam> = Vec::new();
    let mut i: usize = 0;
    while i < ps.len()
        invariant
            0 <= i <= ps@.len(),
            pm == ps@.map_values(|p: RuleParam| p@),
            pm.len() == ps@.len(),
            r@.map_values(|p: RuleParam| p@) == pm.take(i as int),
        decreases ps@.len() - i,
    {
        let ghost r0 = r@;
        r.push(RuleParam { label: ps[i].label.clone(), param_type: ps[i].param_type });
        proof {
            assert(r@.map_values(|p: RuleParam| p@) =~= r0.map_values(|p: RuleParam| p@).push(
                pm[i as int],
            ));
            assert(pm.take(i as int + 1) =~= pm.take(i as int).push(pm[i as int]));
        }
        i = i + 1;
    }
    proof {
        assert(pm.take(pm.len() as int) =~= pm);
    }
    r
}

impl crate::serialize::Rule {
    /// Generate the validated rule for one declaration and its target record,
    /// or fail with the first diagnostic the pipeline's checks raise.
    pub fn try_new(spec: &crate::rule_input::RuleSpec, record: &TargetRecord) -> (r: Result<
        crate::serialize::Rule,
        Diag,
    >)
        ensures
            ({
                let m = spec_generate(spec@, record@);
                &&& (r is Ok <==> m is Ok)
                &&& (r matches Ok(rule) ==> m matches Ok(rm) && rule@ == rm)
                &&& (r matches Err(d) ==> m matches Err(dm) && d@ == dm)
            }),
    {
        match validate(spec, record) {
            Some(d) => {
                return Err(d);
            },
            None => {},
        }
        let output = match crate::exec_rule_out_types::output_type_of(&spec.output) {
            Some(o) => o,
            None => {
                return Err(Diag { kind: DiagKind::UnsupportedOutput, pos: 0 });
            },
        };
        match &spec.params {
            Some(ps) => Ok(
                crate::serialize::Rule {
                    name: spec.name.clone(),
                    output,
                    body: spec.body.clone(),
                    params: clone_params(ps),
                },
            ),
            None => {
                match &record.fields {
                    Some(fields) => {
                        proof {
                            assert(fields@.map_values(|f: RecordField| f@).skip(0)
                                =~= fields@.map_values(|f: RecordField| f@));
                        }
                        match fields_to_params(fields, 0) {
                            Err(d) => Err(d),
                            Ok(params) => {
                                Ok(
                                    crate::serialize::Rule {
                                        name: spec.name.clone(),
                                        output,
                                        body: spec.body.clone(),
                                        params,
                                    },
                                )
                            },
                        }
                    },
                    None => unreached(),
                }
            },
        }
    }
}

} // verus!
