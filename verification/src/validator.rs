use vstd::prelude::*;
use crate::cli::{Cli, TrustMode, trust_mode_name};
use crate::json::{JsonData, JsonValue, datas, lemma_array_data};
use crate::markdown::get_str;
use crate::report::{
    CrJsonValidationReport, InputType, AssetReport, AssertionRecord, InputDescriptor, ManifestRecord, StatusRecord, StatusView, TrustAssessment, ValidationState,
    status_views, opt_str,
};
use crate::text::{seq_starts_with, str_contains_char, str_starts_with, to_owned_string, push_str, str_eq, decimal, decimal_string};
use crate::output::{file_stem_of, join_path, path_file_stem, path_join};

verus! {

/// An input names a glob pattern when it holds `*`, `?` or `[`.
pub open spec fn is_glob_pattern(input: Seq<char>) -> bool {
    input.contains('*') || input.contains('?') || input.contains('[')
}

pub fn has_glob_pattern(input: &str) -> (r: bool)
    ensures
        r == is_glob_pattern(input@),
{
    str_contains_char(input, '*') || str_contains_char(input, '?') || str_contains_char(input, '[')
}

/// Trust notes that the options alone call for: none.
pub fn trust_notes(_cli: &Cli) -> (r: Vec<String>)
    ensures
        r@.len() == 0,
{
    Vec::new()
}

/// Classification of a validation state in the trust assessment.
pub open spec fn classification_of(state: ValidationState) -> Seq<char> {
    match state {
        ValidationState::Trusted => "trusted"@,
        ValidationState::Valid => "valid_untrusted"@,
        ValidationState::Invalid => "invalid"@,
    }
}

pub fn trust_classification(state: ValidationState) -> (r: &'static str)
    ensures
        r@ == classification_of(state),
{
    match state {
        ValidationState::Trusted => "trusted",
        ValidationState::Valid => "valid_untrusted",
        ValidationState::Invalid => "invalid",
    }
}

// ---------------------------------------------------------------------------
// Manifest details from crJSON
// ---------------------------------------------------------------------------

/// Claim version from crJSON manifest keys (`claim.v2` gives `2`, `claim` gives `1`).
pub open spec fn claim_version_of(m: JsonData) -> Option<Seq<char>> {
    if m.get("claim.v2"@) is Some {
        Some("2"@)
    } else if m.get("claim"@) is Some {
        Some("1"@)
    } else {
        None
    }
}

pub fn claim_version_from_manifest_value(manifest_value: &JsonValue) -> (r: Option<String>)
    ensures
        opt_str(r) == claim_version_of(manifest_value.data()),
{
    if manifest_value.get("claim.v2").is_some() {
        Some(to_owned_string("2"))
    } else if manifest_value.get("claim").is_some() {
        Some(to_owned_string("1"))
    } else {
        None
    }
}

/// The claim of a crJSON manifest: `claim.v2`, else `claim`.
pub open spec fn claim_of(m: JsonData) -> Option<JsonData> {
    match m.get("claim.v2"@) {
        Some(c) => Some(c),
        None => m.get("claim"@),
    }
}

/// Claim generator from the claim's `claim_generator_info`: its name, followed
/// by a space and its version when there is one.
pub open spec fn claim_generator_of(m: JsonData) -> Option<Seq<char>> {
    match claim_of(m) {
        None => None,
        Some(claim) => match claim.get("claim_generator_info"@) {
            None => None,
            Some(info) => match info.get_str("name"@) {
                None => None,
                Some(name) => match info.get_str("version"@) {
                    Some(v) => Some(name + " "@ + v),
                    None => Some(name),
                },
            },
        },
    }
}

pub fn claim_generator_from_manifest_value(manifest_value: &JsonValue) -> (r: Option<String>)
    ensures
        opt_str(r) == claim_generator_of(manifest_value.data()),
{
    let claim = match manifest_value.get("claim.v2") {
        Some(c) => c,
        None => match manifest_value.get("claim") {
            Some(c) => c,
            None => return None,
        },
    };
    let info = match claim.get("claim_generator_info") {
        Some(i) => i,
        None => return None,
    };
    let name = match get_str(info, "name") {
        Some(n) => n,
        None => return None,
    };
    match get_str(info, "version") {
        Some(v) => {
            let mut s = to_owned_string(name);
            push_str(&mut s, " ");
            push_str(&mut s, v);
            Some(s)
        },
        None => Some(to_owned_string(name)),
    }
}

/// The status that a crJSON validation result item describes.
pub open spec fn status_of_item(item: JsonData, kind: Seq<char>) -> StatusView {
    StatusView {
        code: match item.get_str("code"@) {
            Some(c) => c,
            None => Seq::empty(),
        },
        url: item.get_str("url"@),
        explanation: item.get_str("explanation"@),
        kind: kind,
    }
}

/// The statuses listed under `key` of the validation results, all of kind `key`.
pub open spec fn statuses_of_kind(vr: JsonData, key: Seq<char>) -> Seq<StatusView> {
    match vr.get(key) {
        Some(arr) => match arr.as_array() {
            Some(items) => items.map_values(|item: JsonData| status_of_item(item, key)),
            None => Seq::empty(),
        },
        None => Seq::empty(),
    }
}

/// Per-manifest statuses: success, then informational, then failure results.
pub open spec fn manifest_statuses(m: JsonData) -> Seq<StatusView> {
    match m.get("validationResults"@) {
        None => Seq::empty(),
        Some(vr) => statuses_of_kind(vr, "success"@) + statuses_of_kind(vr, "informational"@) + statuses_of_kind(
            vr,
            "failure"@,
        ),
    }
}

/// The items of the validation result list under `key`, or none when there is no such list.
pub open spec fn result_items(vr: JsonData, key: Seq<char>) -> Seq<JsonData> {
    match vr.get(key) {
        Some(JsonData::Array(items)) => items,
        _ => Seq::empty(),
    }
}

/// A manifest's statuses are its success results, then its informational results, then its
/// failure results: one status per item, in order, each with the code the item gives and the
/// kind of the list it came from. A manifest without validation results has none.
pub proof fn lemma_manifest_statuses_by_kind(m: JsonData)
    ensures
        m.get("validationResults"@) is None ==> manifest_statuses(m).len() == 0,
        m.get("validationResults"@) matches Some(vr) ==> {
            let st = manifest_statuses(m);
            let s = result_items(vr, "success"@);
            let i = result_items(vr, "informational"@);
            let f = result_items(vr, "failure"@);
            &&& st.len() == s.len() + i.len() + f.len()
            &&& forall|k: int| 0 <= k < s.len() ==> {
                &&& #[trigger] st[k].kind == "success"@
                &&& s[k].get_str("code"@) matches Some(c) ==> st[k].code == c
            }
            &&& forall|k: int| 0 <= k < i.len() ==> {
                &&& #[trigger] st[s.len() + k].kind == "informational"@
                &&& i[k].get_str("code"@) matches Some(c) ==> st[s.len() + k].code == c
            }
            &&& forall|k: int| 0 <= k < f.len() ==> {
                &&& #[trigger] st[s.len() + i.len() + k].kind == "failure"@
                &&& f[k].get_str("code"@) matches Some(c) ==> st[s.len() + i.len() + k].code == c
            }
        },
{
    match m.get("validationResults"@) {
        None => {},
        Some(vr) => {
            let a = statuses_of_kind(vr, "success"@);
            let b = statuses_of_kind(vr, "informational"@);
            let c = statuses_of_kind(vr, "failure"@);
            assert(a.len() == result_items(vr, "success"@).len());
            assert(b.len() == result_items(vr, "informational"@).len());
            assert(c.len() == result_items(vr, "failure"@).len());
            let st = manifest_statuses(m);
            assert(st == a + b + c);
            assert forall|k: int| 0 <= k < a.len() implies st[k] == a[k] by {}
            assert forall|k: int| 0 <= k < b.len() implies st[a.len() + k] == b[k] by {}
            assert forall|k: int| 0 <= k < c.len() implies st[a.len() + b.len() + k] == c[k] by {}
        },
    }
}

fn status_from_item(item: &JsonValue, kind: &str) -> (r: StatusRecord)
    ensures
        r@ == status_of_item(item.data(), kind@),
{
    let code = match get_str(item, "code") {
        Some(c) => to_owned_string(c),
        None => {
            proof {
                reveal_strlit("");
                assert(""@ =~= Seq::<char>::empty());
            }
            to_owned_string("")
        },
    };
    let url = match get_str(item, "url") {
        Some(u) => Some(to_owned_string(u)),
        None => None,
    };
    let explanation = match get_str(item, "explanation") {
        Some(e) => Some(to_owned_string(e)),
        None => None,
    };
    StatusRecord { code, url, explanation, kind: to_owned_string(kind) }
}

fn push_statuses_of_kind(out: &mut Vec<StatusRecord>, vr: &JsonValue, key: &str)
    ensures
        status_views(final(out)@) == status_views(old(out)@) + statuses_of_kind(vr.data(), key@),
{
    let arr = match vr.get(key) {
        Some(a) => a,
        None => {
            assert(status_views(out@) =~= status_views(out@) + Seq::<StatusView>::empty());
            return;
        },
    };
    proof {
        lemma_array_data(arr);
    }
    let items = match arr.as_array() {
        Some(items) => items,
        None => {
            assert(status_views(out@) =~= status_views(out@) + Seq::<StatusView>::empty());
            return;
        },
    };
    let ghost start = status_views(out@);
    let ghost f = |item: JsonData| status_of_item(item, key@);
    let mut i: usize = 0;
    while i < items.len()
        invariant
            i <= items@.len(),
            f == (|item: JsonData| status_of_item(item, key@)),
            status_views(out@) == start + datas(items@).take(i as int).map_values(f),
        decreases items@.len() - i,
    {
        let s = status_from_item(&items[i], key);
        let ghost before = out@;
        out.push(s);
        proof {
            assert(datas(items@).take(i + 1).map_values(f) =~= datas(items@).take(i as int).map_values(f).push(
                s@,
            ));
            assert(status_views(out@) =~= status_views(before).push(s@));
        }
        i = i + 1;
    }
    assert(datas(items@).take(i as int) =~= datas(items@));
}

/// Per-manifest validation results from crJSON manifest.validationResults (success/informational/failure).
pub fn statuses_from_manifest_validation_results(manifest_value: &JsonValue) -> (r: Vec<StatusRecord>)
    ensures
        status_views(r@) == manifest_statuses(manifest_value.data()),
{
    let mut out: Vec<StatusRecord> = Vec::new();
    let vr = match manifest_value.get("validationResults") {
        Some(v) => v,
        None => {
            assert(status_views(out@) =~= Seq::<StatusView>::empty());
            return out;
        },
    };
    assert(status_views(out@) =~= Seq::<StatusView>::empty());
    push_statuses_of_kind(&mut out, vr, "success");
    assert(status_views(out@) =~= statuses_of_kind(vr.data(), "success"@));
    push_statuses_of_kind(&mut out, vr, "informational");
    push_statuses_of_kind(&mut out, vr, "failure");
    out
}

// ---------------------------------------------------------------------------
// Asset report assembly
// ---------------------------------------------------------------------------

/// What reading an asset yields, as far as the report shows it.
pub struct ReaderSummary {
    pub validation_state: ValidationState,
    pub active_manifest_label: Option<String>,
    pub statuses: Vec<StatusRecord>,
    pub manifests: Vec<ManifestRecord>,
    pub reader_json: Option<JsonValue>,
}

/// The manifests listed in a reader's crJSON.
pub open spec fn json_manifests(reader_json: Option<JsonValue>) -> Seq<JsonData> {
    match reader_json {
        Some(j) => match j.data().get("manifests"@) {
            Some(ms) => match ms.as_array() {
                Some(items) => items,
                None => Seq::empty(),
            },
            None => Seq::empty(),
        },
        None => Seq::empty(),
    }
}

/// `r` is manifest `m` with the details that crJSON manifest `j` (when there is one) gives.
pub open spec fn merged_manifest(m: ManifestRecord, j: Option<JsonData>, r: ManifestRecord) -> bool {
    &&& r.label == m.label
    &&& r.title == m.title
    &&& r.format == m.format
    &&& r.signature == m.signature
    &&& r.ingredients == m.ingredients
    &&& r.assertions == m.assertions
    &&& match j {
        None => r.statuses == m.statuses && r.claim_version == m.claim_version && r.claim_generator
            == m.claim_generator,
        Some(d) => {
            &&& status_views(r.statuses@) == manifest_statuses(d)
            &&& opt_str(r.claim_version) == claim_version_of(d)
            &&& opt_str(r.claim_generator) == match claim_generator_of(d) {
                Some(g) => Some(g),
                None => opt_str(m.claim_generator),
            }
        },
    }
}

/// The crJSON manifest at position `i`, if any.
pub open spec fn json_manifest_at(js: Seq<JsonData>, i: int) -> Option<JsonData> {
    if 0 <= i < js.len() {
        Some(js[i])
    } else {
        None
    }
}

/// Total number of ingredients over the manifests.
pub open spec fn ingredient_total(ms: Seq<ManifestRecord>) -> int
    decreases ms.len(),
{
    if ms.len() == 0 {
        0
    } else {
        ingredient_total(ms.drop_last()) + ms.last().ingredients@.len()
    }
}

pub open spec fn assertion_label_fn() -> spec_fn(AssertionRecord) -> Seq<char> {
    |a: AssertionRecord| a.label@
}

/// The assertion labels of all manifests, in order.
pub open spec fn assertion_labels_of(ms: Seq<ManifestRecord>) -> Seq<Seq<char>>
    decreases ms.len(),
{
    if ms.len() == 0 {
        Seq::empty()
    } else {
        assertion_labels_of(ms.drop_last()) + ms.last().assertions@.map_values(assertion_label_fn())
    }
}

pub open spec fn string_views(s: Seq<String>) -> Seq<Seq<char>> {
    s.map_values(|x: String| x@)
}

/// The statuses an asset report shows: the reader's, or when it has none, those of the
/// first crJSON manifest.
pub open spec fn reported_statuses(reader_statuses: Seq<StatusRecord>, js: Seq<JsonData>) -> Seq<StatusView> {
    if reader_statuses.len() == 0 && js.len() > 0 {
        manifest_statuses(js[0])
    } else {
        status_views(reader_statuses)
    }
}

pub open spec fn itl_note() -> Seq<char> {
    "ITL was checked but the manifest did not chain to it"@
}

/// The trust notes of an asset report.
pub open spec fn asset_trust_notes(state: ValidationState, scenario_label: Seq<char>) -> Seq<Seq<char>> {
    if state != ValidationState::Trusted && scenario_label == "itl"@ {
        seq![itl_note()]
    } else {
        Seq::empty()
    }
}

fn merge_manifests(manifests: Vec<ManifestRecord>, js: Option<&Vec<JsonValue>>) -> (r: Vec<ManifestRecord>)
    ensures
        r@.len() == manifests@.len(),
        forall|i: int|
            0 <= i < r@.len() ==> merged_manifest(
                #[trigger] manifests@[i],
                json_manifest_at(
                    match js {
                        Some(v) => datas(v@),
                        None => Seq::empty(),
                    },
                    i,
                ),
                r@[i],
            ),
{
    let ghost jd = match js {
        Some(v) => datas(v@),
        None => Seq::<JsonData>::empty(),
    };
    let ghost orig = manifests@;
    let n = manifests.len();
    let mut rest = manifests;
    let mut merged: Vec<ManifestRecord> = Vec::new();
    while rest.len() > 0
        invariant
            merged@.len() + rest@.len() == n,
            n == orig.len(),
            rest@ == orig.skip(merged@.len() as int),
            jd == match js {
                Some(v) => datas(v@),
                None => Seq::<JsonData>::empty(),
            },
            forall|k: int| 0 <= k < merged@.len() ==> merged_manifest(#[trigger] orig[k], json_manifest_at(jd, k), merged@[k]),
        decreases rest@.len(),
    {
        let i = merged.len();
        let m = rest.remove(0);
        assert(m == orig[i as int]);
        assert(rest@ =~= orig.skip(i + 1));
        let j: Option<&JsonValue> = match js {
            Some(v) => if i < v.len() {
                Some(&v[i])
            } else {
                None
            },
            None => None,
        };
        let r = match j {
            Some(d) => {
                let statuses = statuses_from_manifest_validation_results(d);
                let claim_version = claim_version_from_manifest_value(d);
                let claim_generator = match claim_generator_from_manifest_value(d) {
                    Some(g) => Some(g),
                    None => m.claim_generator,
                };
                ManifestRecord {
                    label: m.label,
                    title: m.title,
                    format: m.format,
                    claim_version,
                    claim_generator,
                    signature: m.signature,
                    ingredients: m.ingredients,
                    assertions: m.assertions,
                    statuses,
                }
            },
            None => m,
        };
        proof {
            assert(json_manifest_at(jd, i as int) == match j {
                Some(d) => Some(d.data()),
                None => None::<JsonData>,
            });
        }
        merged.push(r);
    }
    merged
}

fn ingredient_count_of(ms: &Vec<ManifestRecord>) -> (r: usize)
    requires
        ingredient_total(ms@) <= usize::MAX,
    ensures
        r == ingredient_total(ms@),
{
    let mut total: usize = 0;
    let mut i: usize = 0;
    while i < ms.len()
        invariant
            i <= ms@.len(),
            ingredient_total(ms@) <= usize::MAX,
            total == ingredient_total(ms@.take(i as int)),
        decreases ms@.len() - i,
    {
        proof {
            assert(ms@.take(i + 1).drop_last() =~= ms@.take(i as int));
            lemma_ingredient_total_prefix(ms@, i + 1);
        }
        total = total + ms[i].ingredients.len();
        i = i + 1;
    }
    assert(ms@.take(i as int) =~= ms@);
    total
}

proof fn lemma_ingredient_total_prefix(ms: Seq<ManifestRecord>, k: int)
    requires
        0 <= k <= ms.len(),
    ensures
        0 <= ingredient_total(ms.take(k)) <= ingredient_total(ms),
    decreases ms.len(),
{
    if ms.len() > 0 {
        if k == ms.len() {
            assert(ms.take(k) =~= ms);
            lemma_ingredient_total_nonneg(ms);
        } else {
            lemma_ingredient_total_prefix(ms.drop_last(), k);
            assert(ms.drop_last().take(k) =~= ms.take(k));
        }
    }
}

proof fn lemma_ingredient_total_nonneg(ms: Seq<ManifestRecord>)
    ensures
        ingredient_total(ms) >= 0,
    decreases ms.len(),
{
    if ms.len() > 0 {
        lemma_ingredient_total_nonneg(ms.drop_last());
    }
}

fn assertion_labels(ms: &Vec<ManifestRecord>) -> (r: Vec<String>)
    ensures
        string_views(r@) == assertion_labels_of(ms@),
{
    let mut out: Vec<String> = Vec::new();
    let mut i: usize = 0;
    while i < ms.len()
        invariant
            i <= ms@.len(),
            string_views(out@) == assertion_labels_of(ms@.take(i as int)),
        decreases ms@.len() - i,
    {
        let ghost start = string_views(out@);
        let assertions = &ms[i].assertions;
        let mut j: usize = 0;
        while j < assertions.len()
            invariant
                j <= assertions@.len(),
                *assertions == ms@[i as int].assertions,
                string_views(out@) == start + assertions@.take(j as int).map_values(assertion_label_fn()),
            decreases assertions@.len() - j,
        {
            let ghost before = out@;
            out.push(to_owned_string(assertions[j].label.as_str()));
            proof {
                assert(assertions@.take(j + 1).map_values(assertion_label_fn()) =~= assertions@.take(
                    j as int,
                ).map_values(assertion_label_fn()).push(assertions@[j as int].label@));
                assert(string_views(out@) =~= string_views(before).push(assertions@[j as int].label@));
            }
            j = j + 1;
        }
        proof {
            assert(assertions@.take(j as int) =~= assertions@);
            assert(ms@.take(i + 1).drop_last() =~= ms@.take(i as int));
            assert(ms@.take(i + 1).last() == ms@[i as int]);
        }
        i = i + 1;
    }
    assert(ms@.take(i as int) =~= ms@);
    out
}

/// Assembles the report of one asset from what its reader gave, under one trust scenario.
pub fn build_asset_report(
    input: InputDescriptor,
    trust_mode: TrustMode,
    profile_path: Option<String>,
    scenario_label: &str,
    scenario_source: String,
    reader: ReaderSummary,
    profile_evaluation: Option<JsonValue>,
) -> (a: AssetReport)
    requires
        ingredient_total(reader.manifests@) <= usize::MAX,
    ensures
        a.input == input,
        a.validation_state == reader.validation_state,
        a.trust.mode@ == trust_mode_name(trust_mode),
        a.trust.classification@ == classification_of(reader.validation_state),
        opt_str(a.trust.source) == Some(scenario_source@),
        string_views(a.trust.notes@) == asset_trust_notes(reader.validation_state, scenario_label@),
        a.profile_path == profile_path,
        a.profile_evaluation == profile_evaluation,
        a.active_manifest_label == reader.active_manifest_label,
        a.manifest_count == reader.manifests@.len(),
        a.ingredient_count == ingredient_total(reader.manifests@),
        string_views(a.assertion_labels@) == assertion_labels_of(reader.manifests@),
        status_views(a.statuses@) == reported_statuses(reader.statuses@, json_manifests(reader.reader_json)),
        a.manifests@.len() == reader.manifests@.len(),
        forall|i: int|
            0 <= i < a.manifests@.len() ==> merged_manifest(
                #[trigger] reader.manifests@[i],
                json_manifest_at(json_manifests(reader.reader_json), i),
                a.manifests@[i],
            ),
        a.reader_json == reader.reader_json,
        a.warnings@.len() == 0,
{
    let ReaderSummary { validation_state, active_manifest_label, statuses, manifests, reader_json } = reader;
    let ghost orig_manifests = manifests@;
    let ingredient_count = ingredient_count_of(&manifests);
    let labels = assertion_labels(&manifests);
    let manifest_count = manifests.len();
    let js: Option<&Vec<JsonValue>> = match &reader_json {
        Some(j) => match j.get("manifests") {
            Some(ms) => {
                proof {
                    lemma_array_data(ms);
                }
                ms.as_array()
            },
            None => None,
        },
        None => None,
    };
    proof {
        assert(json_manifests(reader_json) == match js {
            Some(v) => datas(v@),
            None => Seq::<JsonData>::empty(),
        });
    }
    let reported = if statuses.len() == 0 {
        match js {
            Some(v) => if v.len() > 0 {
                statuses_from_manifest_validation_results(&v[0])
            } else {
                statuses
            },
            None => statuses,
        }
    } else {
        statuses
    };
    let merged = merge_manifests(manifests, js);
    let mut notes: Vec<String> = Vec::new();
    if validation_state != ValidationState::Trusted && crate::text::str_eq(scenario_label, "itl") {
        notes.push(to_owned_string("ITL was checked but the manifest did not chain to it"));
        assert(string_views(notes@) =~= seq![itl_note()]);
    } else {
        assert(string_views(notes@) =~= Seq::<Seq<char>>::empty());
    }
    let trust = TrustAssessment {
        mode: to_owned_string(trust_mode.as_str()),
        classification: to_owned_string(trust_classification(validation_state)),
        source: Some(scenario_source),
        notes,
    };
    AssetReport {
        input,
        validation_state,
        trust,
        profile_path,
        profile_evaluation,
        active_manifest_label,
        manifest_count,
        ingredient_count,
        assertion_labels: labels,
        statuses: reported,
        manifests: merged,
        reader_json,
        warnings: Vec::new(),
    }
}

// ---------------------------------------------------------------------------
// Errors
// ---------------------------------------------------------------------------

/// Why a validation run cannot go on.
#[derive(Debug, PartialEq, Eq)]
pub enum ValidatorError {
    /// Custom trust mode was chosen without a trust list.
    CustomTrustListRequired,
    /// No input file was given or matched.
    NoInputs,
    /// A glob pattern matched no file.
    PatternMatchedNothing(String),
    /// No trust scenario could read the asset.
    AllTrustScenariosFailed,
}

pub open spec fn error_message(e: ValidatorError) -> Seq<char> {
    match e {
        ValidatorError::CustomTrustListRequired => "--trust-mode custom requires --trust-list FILE_OR_URL"@,
        ValidatorError::NoInputs => "no input files matched"@,
        ValidatorError::PatternMatchedNothing(p) => "pattern '"@ + p@ + "' did not match any files"@,
        ValidatorError::AllTrustScenariosFailed => "all trust scenarios failed"@,
    }
}

impl ValidatorError {
    /// The message shown for the error.
    pub fn message(&self) -> (r: String)
        ensures
            r@ == error_message(*self),
    {
        match self {
            ValidatorError::CustomTrustListRequired => to_owned_string(
                "--trust-mode custom requires --trust-list FILE_OR_URL",
            ),
            ValidatorError::NoInputs => to_owned_string("no input files matched"),
            ValidatorError::PatternMatchedNothing(p) => {
                let mut m = to_owned_string("pattern '");
                push_str(&mut m, p.as_str());
                push_str(&mut m, "' did not match any files");
                m
            },
            ValidatorError::AllTrustScenariosFailed => to_owned_string("all trust scenarios failed"),
        }
    }
}

/// The options are usable: custom trust mode needs a trust list.
pub fn check_options(cli: &Cli) -> (r: Result<(), ValidatorError>)
    ensures
        r is Err <==> (cli.trust_mode == TrustMode::Custom && cli.trust_list is None),
        r matches Err(e) ==> e == ValidatorError::CustomTrustListRequired,
{
    if cli.trust_mode == TrustMode::Custom && cli.trust_list.is_none() {
        Err(ValidatorError::CustomTrustListRequired)
    } else {
        Ok(())
    }
}

// ---------------------------------------------------------------------------
// Inputs
// ---------------------------------------------------------------------------

/// The paths one input stands for: the files a glob pattern matched, or the input itself.
/// A pattern that matched nothing is an error.
pub fn expand_input(input: &str, glob_matches: Vec<String>) -> (r: Result<Vec<String>, ValidatorError>)
    ensures
        is_glob_pattern(input@) && glob_matches@.len() == 0 <==> r is Err,
        r matches Err(e) ==> e matches ValidatorError::PatternMatchedNothing(p) && p@ == input@,
        r matches Ok(paths) ==> if is_glob_pattern(input@) {
            paths == glob_matches
        } else {
            string_views(paths@) == seq![input@]
        },
{
    if has_glob_pattern(input) {
        if glob_matches.len() == 0 {
            Err(ValidatorError::PatternMatchedNothing(to_owned_string(input)))
        } else {
            Ok(glob_matches)
        }
    } else {
        let mut v: Vec<String> = Vec::new();
        v.push(to_owned_string(input));
        assert(string_views(v@) =~= seq![input@]);
        Ok(v)
    }
}

/// A run needs at least one input.
pub fn check_inputs(inputs: &Vec<String>) -> (r: Result<(), ValidatorError>)
    ensures
        r is Err <==> inputs@.len() == 0,
        r matches Err(e) ==> e == ValidatorError::NoInputs,
{
    if inputs.len() == 0 {
        Err(ValidatorError::NoInputs)
    } else {
        Ok(())
    }
}

/// Input type from a file's extension; a `.json` file is crJSON when its `schema` is `crjson`.
pub open spec fn input_type_of(extension: Option<Seq<char>>, json: Option<JsonData>) -> InputType {
    match extension {
        Some(e) => if e == "c2pa"@ {
            InputType::SidecarManifest
        } else if e == "json"@ {
            match json {
                Some(j) => if j.get_str("schema"@) == Some("crjson"@) {
                    InputType::CrJson
                } else {
                    InputType::Asset
                },
                None => InputType::Asset,
            }
        } else {
            InputType::Asset
        },
        None => InputType::Asset,
    }
}

pub open spec fn opt_str_view(o: Option<&str>) -> Option<Seq<char>> {
    match o {
        Some(s) => Some(s@),
        None => None,
    }
}

/// Input type of a file with the given extension; `json` is the file's parsed content,
/// which a `.json` file needs.
pub fn detect_input_type(extension: Option<&str>, json: Option<&JsonValue>) -> (r: InputType)
    ensures
        r == input_type_of(opt_str_view(extension), crate::report::opt_data(json)),
{
    match extension {
        Some(e) => if str_eq(e, "c2pa") {
            InputType::SidecarManifest
        } else if str_eq(e, "json") {
            match json {
                Some(j) => match get_str(j, "schema") {
                    Some(s) => if str_eq(s, "crjson") {
                        InputType::CrJson
                    } else {
                        InputType::Asset
                    },
                    None => InputType::Asset,
                },
                None => InputType::Asset,
            }
        } else {
            InputType::Asset
        },
        None => InputType::Asset,
    }
}

// ---------------------------------------------------------------------------
// Trust scenarios
// ---------------------------------------------------------------------------

pub const OFFICIAL_TRUST_LIST_URL: &'static str =
    "https://raw.githubusercontent.com/c2pa-org/conformance-public/main/trust-list/C2PA-TRUST-LIST.pem";

pub const DEFAULT_ITL_URL: &'static str =
    "https://raw.githubusercontent.com/c2pa-org/conformance-public/main/trust-list/ITL.pem";

/// One trust list to try: its label, the source reported, and the file or URL to read it from.
pub struct TrustScenarioPlan {
    pub label: String,
    pub source: String,
    pub resource: String,
}

/// Label, source and resource of a plan.
pub open spec fn plan_view(p: TrustScenarioPlan) -> (Seq<char>, Seq<char>, Seq<char>) {
    (p.label@, p.source@, p.resource@)
}

/// The trust lists to try, in order: the official list; then, in ITL mode, the ITL;
/// in custom mode only the given list.
pub open spec fn scenario_plans(mode: TrustMode, trust_list: Option<Seq<char>>) -> Seq<(Seq<char>, Seq<char>, Seq<char>)> {
    match mode {
        TrustMode::Default => seq![("official"@, "official"@, OFFICIAL_TRUST_LIST_URL@)],
        TrustMode::Itl => seq![
            ("official"@, "official"@, OFFICIAL_TRUST_LIST_URL@),
            ("itl"@, "itl"@, DEFAULT_ITL_URL@),
        ],
        TrustMode::Custom => seq![("custom"@, "custom"@, trust_list.unwrap())],
    }
}

fn plan(label: &str, resource: &str) -> (r: TrustScenarioPlan)
    ensures
        plan_view(r) == (label@, label@, resource@),
{
    TrustScenarioPlan {
        label: to_owned_string(label),
        source: to_owned_string(label),
        resource: to_owned_string(resource),
    }
}

pub fn trust_scenario_plans(mode: TrustMode, trust_list: Option<&str>) -> (r: Vec<TrustScenarioPlan>)
    requires
        mode == TrustMode::Custom ==> trust_list is Some,
    ensures
        r@.map_values(|p: TrustScenarioPlan| plan_view(p)) == scenario_plans(mode, opt_str_view(trust_list)),
{
    let mut v: Vec<TrustScenarioPlan> = Vec::new();
    match mode {
        TrustMode::Default => {
            v.push(plan("official", OFFICIAL_TRUST_LIST_URL));
        },
        TrustMode::Itl => {
            v.push(plan("official", OFFICIAL_TRUST_LIST_URL));
            v.push(plan("itl", DEFAULT_ITL_URL));
        },
        TrustMode::Custom => {
            match trust_list {
                Some(t) => v.push(plan("custom", t)),
                None => {},
            }
        },
    }
    assert(v@.map_values(|p: TrustScenarioPlan| plan_view(p)) =~= scenario_plans(mode, opt_str_view(trust_list)));
    v
}

/// A rubric is to be evaluated: a rubric file or a rubric directory is given.
pub open spec fn rubric_requested_of(cli: Cli) -> bool {
    cli.rubric is Some || cli.rubric_dir is Some
}

pub fn rubric_requested(cli: &Cli) -> (r: bool)
    ensures
        r == rubric_requested_of(*cli),
{
    cli.rubric.is_some() || cli.rubric_dir.is_some()
}

/// Label and source of the read without trust verification.
pub open spec fn untrusted_label() -> Seq<char> {
    "untrusted"@
}

pub fn untrusted_scenario_label() -> (r: &'static str)
    ensures
        r@ == untrusted_label(),
{
    "untrusted"
}

// ---------------------------------------------------------------------------
// Trying trust scenarios
// ---------------------------------------------------------------------------

/// What came of reading an asset under one trust scenario.
pub enum ScenarioEvent {
    /// The asset was read; its report under this scenario.
    Read(AssetReport),
    /// Reading failed; the scenario's label and the error text.
    Failed(String, String),
}

/// What to do after one scenario.
pub enum ScenarioStep {
    /// The asset is trusted: report it and try no further scenario.
    Done(AssetReport),
    /// Try the next scenario.
    Continue,
}

/// The state of trying scenarios one after another: the last report read and the
/// warnings of scenarios that failed.
pub struct ScenarioRun {
    pub last: Option<AssetReport>,
    pub warnings: Vec<String>,
}

/// Warning for a scenario that could not complete.
pub open spec fn scenario_warning(label: Seq<char>, error: Seq<char>) -> Seq<char> {
    "trust scenario '"@ + label + "' could not complete: "@ + error
}

impl ScenarioRun {
    pub fn new() -> (r: ScenarioRun)
        ensures
            r.last is None,
            r.warnings@.len() == 0,
    {
        ScenarioRun { last: None, warnings: Vec::new() }
    }

    /// Takes the outcome of one scenario: a trusted read ends the search; another read
    /// becomes the last one; a failure adds a warning.
    pub fn step(&mut self, event: ScenarioEvent) -> (r: ScenarioStep)
        ensures
            match event {
                ScenarioEvent::Read(a) => if a.validation_state == ValidationState::Trusted {
                    r == ScenarioStep::Done(a) && *final(self) == *old(self)
                } else {
                    r is Continue && final(self).last == Some(a) && final(self).warnings == old(self).warnings
                },
                ScenarioEvent::Failed(label, error) => {
                    &&& r is Continue
                    &&& final(self).last == old(self).last
                    &&& string_views(final(self).warnings@) == string_views(old(self).warnings@).push(
                        scenario_warning(label@, error@),
                    )
                },
            },
    {
        match event {
            ScenarioEvent::Read(a) => {
                if a.validation_state == ValidationState::Trusted {
                    ScenarioStep::Done(a)
                } else {
                    self.last = Some(a);
                    ScenarioStep::Continue
                }
            },
            ScenarioEvent::Failed(label, error) => {
                let mut w = to_owned_string("trust scenario '");
                push_str(&mut w, label.as_str());
                push_str(&mut w, "' could not complete: ");
                push_str(&mut w, error.as_str());
                let ghost before = self.warnings@;
                self.warnings.push(w);
                assert(string_views(self.warnings@) =~= string_views(before).push(scenario_warning(label@, error@)));
                ScenarioStep::Continue
            },
        }
    }

    /// Whether to read the asset once more without verifying trust: a rubric is to be
    /// evaluated and no trust scenario could read the asset. The crJSON of that read is then
    /// still produced and evaluated.
    pub fn wants_untrusted_read(&self, rubric_requested: bool) -> (r: bool)
        ensures
            r == (self.last is None && rubric_requested),
    {
        self.last.is_none() && rubric_requested
    }

    /// After all scenarios: the last report read, with the warnings of failed scenarios
    /// appended; an error when no scenario could read the asset.
    pub fn finish(self) -> (r: Result<AssetReport, ValidatorError>)
        ensures
            r is Err <==> self.last is None,
            r matches Err(e) ==> e == ValidatorError::AllTrustScenariosFailed,
            r matches Ok(a) ==> {
                let last = self.last.unwrap();
                &&& a.input == last.input
                &&& a.validation_state == last.validation_state
                &&& a.trust == last.trust
                &&& a.profile_path == last.profile_path
                &&& a.profile_evaluation == last.profile_evaluation
                &&& a.active_manifest_label == last.active_manifest_label
                &&& a.manifest_count == last.manifest_count
                &&& a.ingredient_count == last.ingredient_count
                &&& a.assertion_labels == last.assertion_labels
                &&& a.statuses == last.statuses
                &&& a.manifests == last.manifests
                &&& a.reader_json == last.reader_json
                &&& a.warnings@ == last.warnings@ + self.warnings@
            },
    {
        let ScenarioRun { last, warnings } = self;
        match last {
            None => Err(ValidatorError::AllTrustScenariosFailed),
            Some(a) => {
                let mut a = a;
                let mut w = warnings;
                a.warnings.append(&mut w);
                Ok(a)
            },
        }
    }
}

// ---------------------------------------------------------------------------
// crJSON inputs
// ---------------------------------------------------------------------------

/// The crJSON that rubrics are evaluated against: the document itself when it has
/// `manifests`; else the `reader_json` of the first of its `results` that has one;
/// else the document itself.
pub open spec fn first_reader_json(results: Seq<JsonData>) -> Option<JsonData>
    decreases results.len(),
{
    if results.len() == 0 {
        None
    } else {
        match results[0].get("reader_json"@) {
            Some(r) => Some(r),
            None => first_reader_json(results.drop_first()),
        }
    }
}

pub open spec fn effective_crjson_of(crjson: JsonData) -> JsonData {
    if crjson.get("manifests"@) is Some {
        crjson
    } else {
        match crjson.get("results"@) {
            Some(results) => match results.as_array() {
                Some(items) => match first_reader_json(items) {
                    Some(r) => r,
                    None => crjson,
                },
                None => crjson,
            },
            None => crjson,
        }
    }
}

fn first_reader_json_from(results: &Vec<JsonValue>, i: usize) -> (r: Option<&JsonValue>)
    requires
        i <= results.len(),
    ensures
        crate::report::opt_data(r) == first_reader_json(datas(results@).skip(i as int)),
    decreases results.len() - i,
{
    let ghost ds = datas(results@);
    if i == results.len() {
        assert(ds.skip(i as int) =~= Seq::<JsonData>::empty());
        return None;
    }
    proof {
        assert(ds.skip(i as int)[0] == results@[i as int].data());
        assert(ds.skip(i as int).drop_first() =~= ds.skip(i + 1));
    }
    match results[i].get("reader_json") {
        Some(r) => Some(r),
        None => first_reader_json_from(results, i + 1),
    }
}

pub fn effective_crjson(crjson: &JsonValue) -> (r: &JsonValue)
    ensures
        r.data() == effective_crjson_of(crjson.data()),
{
    if crjson.get("manifests").is_some() {
        return crjson;
    }
    match crjson.get("results") {
        Some(results) => {
            proof {
                lemma_array_data(results);
            }
            match results.as_array() {
                Some(items) => {
                    assert(datas(items@).skip(0) =~= datas(items@));
                    match first_reader_json_from(items, 0) {
                        Some(r) => r,
                        None => crjson,
                    }
                },
                None => crjson,
            }
        },
        None => crjson,
    }
}

/// The messages of a structural crJSON check, in order.
pub open spec fn structure_problems(v: JsonData) -> Seq<Seq<char>> {
    (if v.get_str("schema"@) != Some("crjson"@) { seq!["schema must equal 'crjson'"@] } else { Seq::empty() })
        + (if v.get_str("schema_version"@) is None { seq!["schema_version is required"@] } else { Seq::empty() })
        + (if !(match v.get("results"@) {
        Some(r) => r.as_array() is Some,
        None => false,
    }) {
        seq!["results must be an array"@]
    } else {
        Seq::empty()
    })
}

/// A crJSON document passes the structural check exactly when its `schema` is `crjson`, it
/// has a `schema_version` text, and its `results` member is a JSON array; when `results` is
/// missing or not an array, the last problem says so.
pub proof fn lemma_structure_needs_results_array(v: JsonData)
    ensures
        structure_problems(v).len() == 0 <==> {
            &&& v.get_str("schema"@) == Some("crjson"@)
            &&& v.get_str("schema_version"@) is Some
            &&& v.get("results"@) matches Some(JsonData::Array(_))
        },
        !(v.get("results"@) matches Some(JsonData::Array(_))) ==> structure_problems(v).len() > 0
            && structure_problems(v).last() == "results must be an array"@,
{
}

/// Structural check of a crJSON report: valid when no problem is found; the problems
/// are the messages, or a single confirmation when there is none.
pub fn check_crjson_structure(value: &JsonValue) -> (r: (bool, Vec<String>))
    ensures
        r.0 == (structure_problems(value.data()).len() == 0),
        string_views(r.1@) == if structure_problems(value.data()).len() == 0 {
            seq!["crJSON structure is valid"@]
        } else {
            structure_problems(value.data())
        },
{
    let ghost d = value.data();
    let mut messages: Vec<String> = Vec::new();
    let mut valid = true;
    let schema_ok = match get_str(value, "schema") {
        Some(s) => str_eq(s, "crjson"),
        None => false,
    };
    let ghost p1 = if !schema_ok { seq!["schema must equal 'crjson'"@] } else { Seq::<Seq<char>>::empty() };
    if !schema_ok {
        valid = false;
        messages.push(to_owned_string("schema must equal 'crjson'"));
    }
    assert(string_views(messages@) =~= p1);
    let ghost p2 = if d.get_str("schema_version"@) is None {
        seq!["schema_version is required"@]
    } else {
        Seq::<Seq<char>>::empty()
    };
    if get_str(value, "schema_version").is_none() {
        valid = false;
        messages.push(to_owned_string("schema_version is required"));
    }
    assert(string_views(messages@) =~= p1 + p2);
    let results_ok = match value.get("results") {
        Some(r) => r.is_array(),
        None => false,
    };
    let ghost p3 = if !results_ok { seq!["results must be an array"@] } else { Seq::<Seq<char>>::empty() };
    if !results_ok {
        valid = false;
        messages.push(to_owned_string("results must be an array"));
    }
    assert(string_views(messages@) =~= p1 + p2 + p3);
    assert(p1 + p2 + p3 == structure_problems(d));
    if messages.len() == 0 {
        messages.push(to_owned_string("crJSON structure is valid"));
        assert(string_views(messages@) =~= seq!["crJSON structure is valid"@]);
    }
    (valid, messages)
}

/// What a crJSON input gets: rubric evaluation when rubrics are loaded, else profile
/// evaluation when a profile is loaded, else the structural check.
#[derive(Debug, Clone, Copy, PartialEq, Eq, Structural)]
pub enum CrJsonAction {
    EvaluateRubrics,
    EvaluateProfile,
    CheckStructure,
}

pub fn crjson_action(rubric_count: usize, has_profile: bool) -> (r: CrJsonAction)
    ensures
        r == if rubric_count > 0 {
            CrJsonAction::EvaluateRubrics
        } else if has_profile {
            CrJsonAction::EvaluateProfile
        } else {
            CrJsonAction::CheckStructure
        },
{
    if rubric_count > 0 {
        CrJsonAction::EvaluateRubrics
    } else if has_profile {
        CrJsonAction::EvaluateProfile
    } else {
        CrJsonAction::CheckStructure
    }
}

/// The report of the structural check of a crJSON input.
pub fn structure_report(input: InputDescriptor, value: &JsonValue) -> (r: CrJsonValidationReport)
    ensures
        r.input == input,
        r.valid == (structure_problems(value.data()).len() == 0),
        string_views(r.messages@) == if structure_problems(value.data()).len() == 0 {
            seq!["crJSON structure is valid"@]
        } else {
            structure_problems(value.data())
        },
        r.rubric_results@.len() == 0,
{
    let (valid, messages) = check_crjson_structure(value);
    CrJsonValidationReport { input, valid, messages, rubric_results: Vec::new() }
}

/// The report of a profile evaluated against a crJSON input.
pub fn profile_crjson_report(input: InputDescriptor, profile_result: JsonValue) -> (r: CrJsonValidationReport)
    ensures
        r.input == input,
        r.valid,
        string_views(r.messages@) == seq!["profile evaluated against crJSON"@],
        r.rubric_results@ == seq![profile_result],
{
    let mut messages: Vec<String> = Vec::new();
    messages.push(to_owned_string("profile evaluated against crJSON"));
    assert(string_views(messages@) =~= seq!["profile evaluated against crJSON"@]);
    let mut rubric_results: Vec<JsonValue> = Vec::new();
    rubric_results.push(profile_result);
    CrJsonValidationReport { input, valid: true, messages, rubric_results }
}

pub open spec fn rubric_message(n: nat) -> Seq<char> {
    "evaluated "@ + decimal(n) + " rubric(s) against crJSON"@
}

/// A statement item whose value is `false`: a trait that does not hold.
pub open spec fn is_false_trait(item: JsonData) -> bool {
    item.get("value"@) == Some(JsonData::Bool(false))
}

/// Some item of a statement section is a false trait.
pub open spec fn items_have_false(items: Seq<JsonData>) -> bool
    decreases items.len(),
{
    if items.len() == 0 {
        false
    } else {
        items_have_false(items.drop_last()) || is_false_trait(items.last())
    }
}

/// Some item of some array section is a false trait.
pub open spec fn sections_have_false(sections: Seq<JsonData>) -> bool
    decreases sections.len(),
{
    if sections.len() == 0 {
        false
    } else {
        sections_have_false(sections.drop_last()) || match sections.last().as_array() {
            Some(items) => items_have_false(items),
            None => false,
        }
    }
}

/// An evaluation result has a false trait: its `statements` sections hold an item whose
/// value is `false`.
pub open spec fn has_false_trait(result: JsonData) -> bool {
    match result.get("statements"@) {
        Some(st) => match st.as_array() {
            Some(sections) => sections_have_false(sections),
            None => false,
        },
        None => false,
    }
}

/// Some rubric result has a false trait.
pub open spec fn results_have_false(results: Seq<JsonData>) -> bool
    decreases results.len(),
{
    if results.len() == 0 {
        false
    } else {
        results_have_false(results.drop_last()) || has_false_trait(results.last())
    }
}

fn items_false(items: &Vec<JsonValue>) -> (r: bool)
    ensures
        r == items_have_false(datas(items@)),
{
    let ghost ds = datas(items@);
    let mut found = false;
    let mut i: usize = 0;
    while i < items.len()
        invariant
            i <= items@.len(),
            ds == datas(items@),
            found == items_have_false(ds.take(i as int)),
        decreases items@.len() - i,
    {
        proof {
            assert(ds.take(i + 1).drop_last() =~= ds.take(i as int));
            assert(ds.take(i + 1).last() == items@[i as int].data());
        }
        let f = match items[i].get("value") {
            Some(v) => match v.as_bool() {
                Some(b) => !b,
                None => false,
            },
            None => false,
        };
        assert(f == is_false_trait(items@[i as int].data()));
        found = found || f;
        i = i + 1;
    }
    assert(ds.take(items@.len() as int) =~= ds);
    found
}

/// Whether an evaluation result has a false trait.
pub fn has_false_trait_value(result: &JsonValue) -> (r: bool)
    ensures
        r == has_false_trait(result.data()),
{
    let st = match result.get("statements") {
        Some(st) => st,
        None => return false,
    };
    let sections = match st.as_array() {
        Some(sections) => sections,
        None => return false,
    };
    proof {
        lemma_array_data(st);
    }
    let ghost ds = datas(sections@);
    let mut found = false;
    let mut i: usize = 0;
    while i < sections.len()
        invariant
            i <= sections@.len(),
            ds == datas(sections@),
            found == sections_have_false(ds.take(i as int)),
        decreases sections@.len() - i,
    {
        proof {
            assert(ds.take(i + 1).drop_last() =~= ds.take(i as int));
            assert(ds.take(i + 1).last() == sections@[i as int].data());
            lemma_array_data(&sections@[i as int]);
        }
        let f = match sections[i].as_array() {
            Some(items) => items_false(items),
            None => false,
        };
        found = found || f;
        i = i + 1;
    }
    assert(ds.take(sections@.len() as int) =~= ds);
    found
}

/// The report of rubrics evaluated against a crJSON input. It is valid unless strict rubric
/// checking is on and some rubric has a trait that evaluated to `false`.
pub fn rubric_crjson_report(
    input: InputDescriptor,
    rubric_results: Vec<JsonValue>,
    rubric_strict: bool,
) -> (r: CrJsonValidationReport)
    ensures
        r.input == input,
        r.valid == !(rubric_strict && results_have_false(datas(rubric_results@))),
        string_views(r.messages@) == seq![rubric_message(rubric_results@.len())],
        r.rubric_results == rubric_results,
{
    let ghost ds = datas(rubric_results@);
    let mut any_false = false;
    let mut i: usize = 0;
    while i < rubric_results.len()
        invariant
            i <= rubric_results@.len(),
            ds == datas(rubric_results@),
            any_false == results_have_false(ds.take(i as int)),
        decreases rubric_results@.len() - i,
    {
        proof {
            assert(ds.take(i + 1).drop_last() =~= ds.take(i as int));
            assert(ds.take(i + 1).last() == rubric_results@[i as int].data());
        }
        let f = has_false_trait_value(&rubric_results[i]);
        any_false = any_false || f;
        i = i + 1;
    }
    assert(ds.take(rubric_results@.len() as int) =~= ds);
    let mut m = to_owned_string("evaluated ");
    let n = decimal_string(rubric_results.len());
    push_str(&mut m, n.as_str());
    push_str(&mut m, " rubric(s) against crJSON");
    let mut messages: Vec<String> = Vec::new();
    messages.push(m);
    assert(string_views(messages@) =~= seq![rubric_message(rubric_results@.len())]);
    CrJsonValidationReport { input, valid: !(rubric_strict && any_false), messages, rubric_results }
}

// ---------------------------------------------------------------------------
// Routing inputs and naming resources
// ---------------------------------------------------------------------------

/// Whether an input is read as crJSON: always with the crJSON option, else when its type
/// was detected as crJSON.
pub fn reads_as_crjson(crjson_option: bool, detected: InputType) -> (r: bool)
    ensures
        r == (crjson_option || detected == InputType::CrJson),
{
    crjson_option || detected == InputType::CrJson
}

/// A trust list resource is fetched over the network when it is an HTTP or HTTPS URL, and
/// read from a file otherwise.
pub open spec fn is_remote(resource: Seq<char>) -> bool {
    seq_starts_with(resource, "http://"@) || seq_starts_with(resource, "https://"@)
}

pub fn is_remote_resource(resource: &str) -> (r: bool)
    ensures
        r == is_remote(resource@),
{
    str_starts_with(resource, "http://") || str_starts_with(resource, "https://")
}

/// A rubric is named after its file's stem, `rubric` when the path has none.
pub open spec fn rubric_name_of(path: Seq<char>) -> Seq<char> {
    match path_file_stem(path) {
        Some(s) => s,
        None => "rubric"@,
    }
}

pub fn rubric_name(path: &str) -> (r: String)
    ensures
        r@ == rubric_name_of(path@),
{
    match file_stem_of(path) {
        Some(s) => s,
        None => to_owned_string("rubric"),
    }
}

/// The pattern of the rubric files in a directory: its `*.yml` files.
pub fn rubric_dir_pattern(dir: &str) -> (r: String)
    ensures
        r@ == path_join(dir@, "*.yml"@),
{
    join_path(dir, "*.yml")
}

/// Media type reported for an input whose format is not known.
pub open spec fn unknown_format() -> Seq<char> {
    "application/octet-stream"@
}

/// The descriptor of an input: its path as given, its resolved path, its type, and its
/// detected media type (`application/octet-stream` when none was detected).
pub fn input_descriptor(
    original: String,
    resolved_path: String,
    input_type: InputType,
    detected_format: Option<String>,
) -> (r: InputDescriptor)
    ensures
        r.original == original,
        r.resolved_path == resolved_path,
        r.input_type == input_type,
        r.detected_format@ == match detected_format {
            Some(f) => f@,
            None => unknown_format(),
        },
{
    let detected_format = match detected_format {
        Some(f) => f,
        None => to_owned_string("application/octet-stream"),
    };
    InputDescriptor { original, resolved_path, input_type, detected_format }
}

} // verus!
