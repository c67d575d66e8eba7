use vstd::prelude::*;
use crate::json::{JsonData, JsonValue};
use crate::text::{seq_contains, seq_starts_with, eq_ignore_ascii_case, str_starts_with, str_contains, str_eq, str_eq_ignore_ascii_case, push_str, to_owned_string};

verus! {

/// Outcome of C2PA validation of one asset.
#[derive(Debug, Clone, Copy, PartialEq, Eq, Structural)]
pub enum ValidationState {
    Invalid,
    Valid,
    Trusted,
}

/// Process exit status that a report calls for.
#[derive(Debug, Clone, Copy, PartialEq, Eq, Structural)]
pub enum ExitStatus {
    Success,
    Failure,
}

/// The whole report of one run.
#[derive(Debug)]
pub struct CrJsonReport {
    pub schema: &'static str,
    pub schema_version: &'static str,
    pub tool: ToolMetadata,
    pub generated_at: String,
    pub summary: Summary,
    pub results: Vec<ReportItem>,
}

#[derive(Debug)]
pub struct ToolMetadata {
    pub name: &'static str,
    pub version: &'static str,
    pub c2pa_sdk: SdkMetadata,
}

#[derive(Debug)]
pub struct SdkMetadata {
    pub name: &'static str,
    pub version: &'static str,
    pub source: &'static str,
}

/// Counts over the results of a run.
#[derive(Debug, Clone, Copy, PartialEq, Eq, Structural)]
pub struct Summary {
    pub total: usize,
    pub trusted: usize,
    pub valid: usize,
    pub invalid: usize,
    pub errors: usize,
    pub warnings: usize,
}

impl Default for Summary {
    fn default() -> (r: Summary)
        ensures
            r == (Summary { total: 0, trusted: 0, valid: 0, invalid: 0, errors: 0, warnings: 0 }),
    {
        Summary { total: 0, trusted: 0, valid: 0, invalid: 0, errors: 0, warnings: 0 }
    }
}

/// One result of a run: an asset report or a crJSON validation report.
#[derive(Debug)]
pub enum ReportItem {
    Asset(AssetReport),
    CrJsonValidation(CrJsonValidationReport),
}

#[derive(Debug)]
pub struct AssetReport {
    pub input: InputDescriptor,
    pub validation_state: ValidationState,
    pub trust: TrustAssessment,
    pub profile_path: Option<String>,
    pub profile_evaluation: Option<JsonValue>,
    pub active_manifest_label: Option<String>,
    pub manifest_count: usize,
    pub ingredient_count: usize,
    pub assertion_labels: Vec<String>,
    pub statuses: Vec<StatusRecord>,
    pub manifests: Vec<ManifestRecord>,
    pub reader_json: Option<JsonValue>,
    pub warnings: Vec<String>,
}

#[derive(Debug)]
pub struct CrJsonValidationReport {
    pub input: InputDescriptor,
    pub valid: bool,
    pub messages: Vec<String>,
    pub rubric_results: Vec<JsonValue>,
}

#[derive(Debug)]
pub struct InputDescriptor {
    pub original: String,
    pub resolved_path: String,
    pub input_type: InputType,
    pub detected_format: String,
}

#[derive(Debug, Clone, Copy, PartialEq, Eq, Structural)]
pub enum InputType {
    Asset,
    SidecarManifest,
    CrJson,
}

#[derive(Debug)]
pub struct TrustAssessment {
    pub mode: String,
    pub classification: String,
    pub source: Option<String>,
    pub notes: Vec<String>,
}

#[derive(Debug)]
pub struct StatusRecord {
    pub code: String,
    pub url: Option<String>,
    pub explanation: Option<String>,
    pub kind: String,
}

#[derive(Debug)]
pub struct ManifestRecord {
    pub label: Option<String>,
    pub title: Option<String>,
    pub format: Option<String>,
    pub claim_version: Option<String>,
    pub claim_generator: Option<String>,
    pub signature: Option<SignatureRecord>,
    pub ingredients: Vec<IngredientRecord>,
    pub assertions: Vec<AssertionRecord>,
    pub statuses: Vec<StatusRecord>,
}

#[derive(Debug)]
pub struct SignatureRecord {
    pub alg: Option<String>,
    pub issuer: Option<String>,
    pub common_name: Option<String>,
    pub serial_number: Option<String>,
    pub time: Option<String>,
    pub revoked: Option<bool>,
}

#[derive(Debug)]
pub struct IngredientRecord {
    pub title: Option<String>,
    pub format: Option<String>,
    pub relationship: Option<String>,
    pub active_manifest: Option<String>,
}

#[derive(Debug)]
pub struct AssertionRecord {
    pub label: String,
    pub instance: usize,
    pub kind: String,
}

/// A report asks for failure exactly when it counts an error or an invalid asset.
pub open spec fn exit_status_of(summary: Summary) -> ExitStatus {
    if summary.errors > 0 || summary.invalid > 0 {
        ExitStatus::Failure
    } else {
        ExitStatus::Success
    }
}

impl ReportItem {
    /// The resolved input path of the result.
    pub open spec fn spec_input_path(self) -> Seq<char> {
        match self {
            ReportItem::Asset(r) => r.input.resolved_path@,
            ReportItem::CrJsonValidation(r) => r.input.resolved_path@,
        }
    }

    /// Resolved path of the input file for this result.
    pub fn input_path(&self) -> (r: &str)
        ensures
            r@ == self.spec_input_path(),
    {
        match self {
            ReportItem::Asset(r) => r.input.resolved_path.as_str(),
            ReportItem::CrJsonValidation(r) => r.input.resolved_path.as_str(),
        }
    }
}

impl CrJsonReport {
    /// Failure when the summary counts any error or invalid asset, success otherwise.
    pub fn exit_code(&self) -> (r: ExitStatus)
        ensures
            r == exit_status_of(self.summary),
    {
        if self.summary.errors > 0 || self.summary.invalid > 0 {
            ExitStatus::Failure
        } else {
            ExitStatus::Success
        }
    }
}

/// Name under which a validation state is shown.
pub open spec fn state_name(state: ValidationState) -> Seq<char> {
    match state {
        ValidationState::Trusted => "trusted"@,
        ValidationState::Valid => "valid"@,
        ValidationState::Invalid => "invalid"@,
    }
}

pub fn render_state(state: ValidationState) -> (r: &'static str)
    ensures
        r@ == state_name(state),
{
    match state {
        ValidationState::Trusted => "trusted",
        ValidationState::Valid => "valid",
        ValidationState::Invalid => "invalid",
    }
}

/// Human name of an input type.
pub open spec fn input_type_name(t: InputType) -> Seq<char> {
    match t {
        InputType::Asset => "asset"@,
        InputType::SidecarManifest => "sidecar manifest"@,
        InputType::CrJson => "crJSON"@,
    }
}

pub fn format_input_type(t: InputType) -> (r: &'static str)
    ensures
        r@ == input_type_name(t),
{
    match t {
        InputType::Asset => "asset",
        InputType::SidecarManifest => "sidecar manifest",
        InputType::CrJson => "crJSON",
    }
}

/// Status codes about the claim signature.
pub open spec fn is_claim_signature_code(code: Seq<char>) -> bool {
    seq_starts_with(code, "claimSignature."@)
}

/// Status codes about the signing certificate (and not about the claim signature).
pub open spec fn is_signing_cert_code(code: Seq<char>) -> bool {
    !is_claim_signature_code(code) && (seq_starts_with(code, "signingCredential."@)
        || seq_starts_with(code, "signingCertificate."@))
}

/// Status codes about the time stamp (and of neither group above).
pub open spec fn is_timestamp_code(code: Seq<char>) -> bool {
    !is_claim_signature_code(code) && !seq_starts_with(code, "signingCredential."@)
        && !seq_starts_with(code, "signingCertificate."@) && seq_starts_with(code, "timeStamp."@)
}

pub open spec fn claim_pred() -> spec_fn(StatusRecord) -> bool {
    |s: StatusRecord| is_claim_signature_code(s.code@)
}

pub open spec fn signing_pred() -> spec_fn(StatusRecord) -> bool {
    |s: StatusRecord| is_signing_cert_code(s.code@)
}

pub open spec fn timestamp_pred() -> spec_fn(StatusRecord) -> bool {
    |s: StatusRecord| is_timestamp_code(s.code@)
}

/// The records themselves behind a sequence of references.
pub open spec fn deref_records(s: Seq<&StatusRecord>) -> Seq<StatusRecord> {
    s.map_values(|r: &StatusRecord| *r)
}

/// Partitions statuses into claim signature, signing certificate, and timestamp (C2PA validation codes).
pub fn partition_validation_statuses(statuses: &[StatusRecord]) -> (r: (
    Vec<&StatusRecord>,
    Vec<&StatusRecord>,
    Vec<&StatusRecord>,
))
    ensures
        deref_records(r.0@) == statuses@.filter(claim_pred()),
        deref_records(r.1@) == statuses@.filter(signing_pred()),
        deref_records(r.2@) == statuses@.filter(timestamp_pred()),
{
    let ghost p0 = claim_pred();
    let ghost p1 = signing_pred();
    let ghost p2 = timestamp_pred();
    let mut claim_sig: Vec<&StatusRecord> = Vec::new();
    let mut signing_cert: Vec<&StatusRecord> = Vec::new();
    let mut timestamp: Vec<&StatusRecord> = Vec::new();
    let mut i: usize = 0;
    while i < statuses.len()
        invariant
            i <= statuses@.len(),
            p0 == claim_pred(),
            p1 == signing_pred(),
            p2 == timestamp_pred(),
            deref_records(claim_sig@) == statuses@.take(i as int).filter(p0),
            deref_records(signing_cert@) == statuses@.take(i as int).filter(p1),
            deref_records(timestamp@) == statuses@.take(i as int).filter(p2),
        decreases statuses@.len() - i,
    {
        let s = &statuses[i];
        proof {
            reveal(Seq::filter);
            assert(statuses@.take(i + 1).drop_last() =~= statuses@.take(i as int));
            assert(statuses@.take(i + 1).last() == statuses@[i as int]);
        }
        let code = s.code.as_str();
        let ghost st = statuses@[i as int];
        assert(*s == st);
        let c0 = str_starts_with(code, "claimSignature.");
        let c1 = str_starts_with(code, "signingCredential.");
        let c2 = str_starts_with(code, "signingCertificate.");
        let c3 = str_starts_with(code, "timeStamp.");
        assert(p0(st) == c0);
        assert(p1(st) == (!c0 && (c1 || c2)));
        assert(p2(st) == (!c0 && !c1 && !c2 && c3));
        if c0 {
            claim_sig.push(s);
            assert(deref_records(claim_sig@) =~= deref_records(claim_sig@.drop_last()).push(*s));
        } else if c1 || c2 {
            signing_cert.push(s);
            assert(deref_records(signing_cert@) =~= deref_records(signing_cert@.drop_last()).push(*s));
        } else if c3 {
            timestamp.push(s);
            assert(deref_records(timestamp@) =~= deref_records(timestamp@.drop_last()).push(*s));
        }
        i = i + 1;
    }
    assert(statuses@.take(i as int) =~= statuses@);
    (claim_sig, signing_cert, timestamp)
}

/// Items joined with a separator between consecutive items.
pub open spec fn join(parts: Seq<Seq<char>>, sep: Seq<char>) -> Seq<char>
    decreases parts.len(),
{
    if parts.len() == 0 {
        Seq::empty()
    } else if parts.len() == 1 {
        parts[0]
    } else {
        join(parts.drop_last(), sep) + sep + parts.last()
    }
}

/// One status in a list: its code, followed by its explanation in parentheses
/// when there is a non-empty one.
pub open spec fn status_entry(s: StatusRecord) -> Seq<char> {
    match s.explanation {
        Some(e) if e@.len() > 0 => s.code@ + " ("@ + e@ + ")"@,
        _ => s.code@,
    }
}

pub open spec fn status_list_text(statuses: Seq<StatusRecord>) -> Seq<char> {
    join(statuses.map_values(|s: StatusRecord| status_entry(s)), "; "@)
}

fn status_entry_string(s: &StatusRecord) -> (r: String)
    ensures
        r@ == status_entry(*s),
{
    let mut out = to_owned_string(s.code.as_str());
    match &s.explanation {
        Some(e) => {
            if !e.as_str().is_empty() {
                push_str(&mut out, " (");
                push_str(&mut out, e.as_str());
                push_str(&mut out, ")");
            }
        },
        None => {},
    }
    out
}

pub fn format_status_list(statuses: Vec<&StatusRecord>) -> (r: String)
    ensures
        r@ == status_list_text(deref_records(statuses@)),
{
    let ghost parts = deref_records(statuses@).map_values(|s: StatusRecord| status_entry(s));
    let mut out = String::new();
    let mut i: usize = 0;
    while i < statuses.len()
        invariant
            i <= statuses@.len(),
            parts.len() == statuses@.len(),
            parts == deref_records(statuses@).map_values(|s: StatusRecord| status_entry(s)),
            out@ == join(parts.take(i as int), "; "@),
        decreases statuses@.len() - i,
    {
        let entry = status_entry_string(statuses[i]);
        proof {
            assert(parts.take(i + 1).drop_last() =~= parts.take(i as int));
            assert(parts[i as int] == entry@);
        }
        if i > 0 {
            push_str(&mut out, "; ");
        }
        push_str(&mut out, entry.as_str());
        proof {
            if i == 0 {
                assert(parts.take(1) =~= seq![entry@]);
            }
        }
        i = i + 1;
    }
    assert(parts.take(i as int) =~= parts);
    out
}

/// HTML text for one character: `&`, `<` and `>` become entities.
pub open spec fn escape_char(c: char) -> Seq<char> {
    if c == '&' {
        seq!['&', 'a', 'm', 'p', ';']
    } else if c == '<' {
        seq!['&', 'l', 't', ';']
    } else if c == '>' {
        seq!['&', 'g', 't', ';']
    } else {
        seq![c]
    }
}

/// HTML text for a string: each character escaped in turn.
pub open spec fn escape_html(s: Seq<char>) -> Seq<char>
    decreases s.len(),
{
    if s.len() == 0 {
        Seq::empty()
    } else {
        escape_html(s.drop_last()) + escape_char(s.last())
    }
}

/// Reads HTML text back: the three entities become their characters again.
pub open spec fn unescape_html(s: Seq<char>) -> Seq<char>
    decreases s.len(),
{
    if s.len() == 0 {
        Seq::empty()
    } else if seq_starts_with(s, seq!['&', 'a', 'm', 'p', ';']) {
        seq!['&'] + unescape_html(s.skip(5))
    } else if seq_starts_with(s, seq!['&', 'l', 't', ';']) {
        seq!['<'] + unescape_html(s.skip(4))
    } else if seq_starts_with(s, seq!['&', 'g', 't', ';']) {
        seq!['>'] + unescape_html(s.skip(4))
    } else {
        seq![s[0]] + unescape_html(s.drop_first())
    }
}

/// Escapes `&`, `<` and `>` for HTML text.
pub fn html_escape(value: &str) -> (r: String)
    ensures
        r@ == escape_html(value@),
{
    let chars = crate::text::chars_of(value);
    let mut out = String::new();
    let mut i: usize = 0;
    while i < chars.len()
        invariant
            i <= chars@.len(),
            chars@ == value@,
            out@ == escape_html(value@.take(i as int)),
        decreases chars@.len() - i,
    {
        let c = chars[i];
        proof {
            assert(value@.take(i + 1).drop_last() =~= value@.take(i as int));
        }
        if c == '&' {
            push_str(&mut out, "&amp;");
            proof { reveal_strlit("&amp;"); assert("&amp;"@ =~= escape_char(c)); }
        } else if c == '<' {
            push_str(&mut out, "&lt;");
            proof { reveal_strlit("&lt;"); assert("&lt;"@ =~= escape_char(c)); }
        } else if c == '>' {
            push_str(&mut out, "&gt;");
            proof { reveal_strlit("&gt;"); assert("&gt;"@ =~= escape_char(c)); }
        } else {
            out.push(c);
        }
        i = i + 1;
    }
    assert(value@.take(i as int) =~= value@);
    out
}

proof fn lemma_escape_html_front(s: Seq<char>)
    requires
        s.len() > 0,
    ensures
        escape_html(s) == escape_char(s[0]) + escape_html(s.drop_first()),
    decreases s.len(),
{
    if s.len() == 1 {
        assert(s.drop_first() =~= Seq::<char>::empty());
        assert(s.drop_last() =~= Seq::<char>::empty());
        assert(escape_html(s.drop_last()) =~= Seq::<char>::empty());
        assert(escape_html(s.drop_first()) =~= Seq::<char>::empty());
        assert(s.last() == s[0]);
        assert(escape_html(s) =~= escape_char(s[0]));
    } else {
        lemma_escape_html_front(s.drop_last());
        assert(s.drop_last().drop_first() =~= s.drop_first().drop_last());
        assert(s.drop_first().last() == s.last());
        assert(escape_html(s) =~= escape_char(s[0]) + escape_html(s.drop_first()));
    }
}

/// Escaped HTML text holds no markup: no `<` and no `>`.
pub proof fn escaped_html_has_no_markup(s: Seq<char>)
    ensures
        !escape_html(s).contains('<'),
        !escape_html(s).contains('>'),
    decreases s.len(),
{
    if s.len() > 0 {
        escaped_html_has_no_markup(s.drop_last());
        let a = escape_html(s.drop_last());
        let b = escape_char(s.last());
        assert(!b.contains('<') && !b.contains('>'));
        assert forall|c: char| (c == '<' || c == '>') implies !(a + b).contains(c) by {
            if (a + b).contains(c) {
                let k = choose|k: int| 0 <= k < (a + b).len() && (a + b)[k] == c;
                if k < a.len() {
                    assert(a[k] == c);
                } else {
                    assert(b[k - a.len()] == c);
                }
            }
        }
    }
}

/// How many times `c` occurs in `s`.
pub open spec fn char_count(s: Seq<char>, c: char) -> nat
    decreases s.len(),
{
    if s.len() == 0 {
        0
    } else {
        char_count(s.drop_last(), c) + if s.last() == c { 1nat } else { 0nat }
    }
}

/// Escaping lengthens a string by four characters for each `&` and three for each `<` and
/// each `>`; a string without them is returned unchanged.
pub proof fn html_escape_length(s: Seq<char>)
    ensures
        escape_html(s).len() == s.len() + 4 * char_count(s, '&') + 3 * char_count(s, '<') + 3
            * char_count(s, '>'),
        char_count(s, '&') == 0 && char_count(s, '<') == 0 && char_count(s, '>') == 0
            ==> escape_html(s) == s,
    decreases s.len(),
{
    if s.len() > 0 {
        html_escape_length(s.drop_last());
        if char_count(s, '&') == 0 && char_count(s, '<') == 0 && char_count(s, '>') == 0 {
            assert(escape_char(s.last()) =~= seq![s.last()]);
            assert(s.drop_last().push(s.last()) =~= s);
        }
    }
}

/// Escaping can be undone: reading escaped HTML text back gives the original string.
pub proof fn html_escape_roundtrip(s: Seq<char>)
    ensures
        unescape_html(escape_html(s)) == s,
    decreases s.len(),
{
    if s.len() > 0 {
        lemma_escape_html_front(s);
        html_escape_roundtrip(s.drop_first());
        let c = s[0];
        let e = escape_char(c);
        let rest = escape_html(s.drop_first());
        let t = e + rest;
        let amp = seq!['&', 'a', 'm', 'p', ';'];
        let lt = seq!['&', 'l', 't', ';'];
        let gt = seq!['&', 'g', 't', ';'];
        if c == '&' {
            assert(t.take(5) =~= amp);
            assert(t.skip(5) =~= rest);
        } else if c == '<' {
            assert(t[1] == 'l');
            assert(!seq_starts_with(t, amp)) by {
                if seq_starts_with(t, amp) { assert(t.take(5)[1] == amp[1]); }
            }
            assert(t.take(4) =~= lt);
            assert(t.skip(4) =~= rest);
        } else if c == '>' {
            assert(t[1] == 'g');
            assert(!seq_starts_with(t, amp)) by {
                if seq_starts_with(t, amp) { assert(t.take(5)[1] == amp[1]); }
            }
            assert(!seq_starts_with(t, lt)) by {
                if seq_starts_with(t, lt) { assert(t.take(4)[1] == lt[1]); }
            }
            assert(t.take(4) =~= gt);
            assert(t.skip(4) =~= rest);
        } else {
            assert(t[0] == c);
            assert(!seq_starts_with(t, amp)) by {
                if seq_starts_with(t, amp) { assert(t.take(5)[0] == amp[0]); }
            }
            assert(!seq_starts_with(t, lt)) by {
                if seq_starts_with(t, lt) { assert(t.take(4)[0] == lt[0]); }
            }
            assert(!seq_starts_with(t, gt)) by {
                if seq_starts_with(t, gt) { assert(t.take(4)[0] == gt[0]); }
            }
            assert(t.drop_first() =~= rest);
        }
        assert(seq![c] + s.drop_first() =~= s);
    }
}

/// Replacement as `str::replace` does it for a non-empty `pat`: each occurrence of `pat`,
/// found from the left without overlap, becomes `rep`.
pub open spec fn replace_all(s: Seq<char>, pat: Seq<char>, rep: Seq<char>) -> Seq<char>
    decreases s.len(),
{
    if pat.len() == 0 || s.len() < pat.len() {
        s
    } else if s.take(pat.len() as int) == pat {
        rep + replace_all(s.skip(pat.len() as int), pat, rep)
    } else {
        seq![s[0]] + replace_all(s.drop_first(), pat, rep)
    }
}

/// Each character of `s` mapped to text by `f`, joined in order.
spec fn map_join(s: Seq<char>, f: spec_fn(char) -> Seq<char>) -> Seq<char>
    decreases s.len(),
{
    if s.len() == 0 {
        Seq::empty()
    } else {
        f(s[0]) + map_join(s.drop_first(), f)
    }
}

/// Escaping of `&` and `>` only.
spec fn escape_amp_gt(c: char) -> Seq<char> {
    if c == '&' {
        seq!['&', 'a', 'm', 'p', ';']
    } else if c == '>' {
        seq!['&', 'g', 't', ';']
    } else {
        seq![c]
    }
}

/// Escaping of `&` only.
spec fn escape_amp(c: char) -> Seq<char> {
    if c == '&' {
        seq!['&', 'a', 'm', 'p', ';']
    } else {
        seq![c]
    }
}

/// Text in which no occurrence of a pattern that starts with `&` can begin, read from its
/// first character: `&` only first, and then not followed as in the pattern.
spec fn no_match_inside(u: Seq<char>, pat: Seq<char>) -> bool {
    &&& forall|k: int| 1 <= k < u.len() ==> u[k] != '&'
    &&& (u.len() > 0 && u[0] == '&') ==> (u.len() >= 2 && u[1] != pat[1])
}

proof fn lemma_replace_passes(u: Seq<char>, t: Seq<char>, pat: Seq<char>, rep: Seq<char>)
    requires
        pat.len() >= 2,
        pat[0] == '&',
        no_match_inside(u, pat),
    ensures
        replace_all(u + t, pat, rep) == u + replace_all(t, pat, rep),
    decreases u.len(),
{
    if u.len() == 0 {
        assert(u + t =~= t);
    } else {
        let x = u + t;
        if x.len() < pat.len() {
            assert(replace_all(t, pat, rep) == t);
        } else {
            assert(x.take(pat.len() as int) != pat) by {
                if u[0] == '&' {
                    assert(x.take(pat.len() as int)[1] == u[1]);
                } else {
                    assert(x.take(pat.len() as int)[0] == u[0]);
                }
            }
            let v = u.drop_first();
            assert(no_match_inside(v, pat)) by {
                assert forall|k: int| 1 <= k < v.len() implies v[k] != '&' by {
                    assert(v[k] == u[k + 1]);
                }
                if v.len() > 0 {
                    assert(v[0] == u[1]);
                }
            }
            lemma_replace_passes(v, t, pat, rep);
            assert(x.drop_first() =~= v + t);
            assert(seq![x[0]] + (v + replace_all(t, pat, rep)) =~= u + replace_all(t, pat, rep));
        }
    }
}

proof fn lemma_replace_map_join(
    s: Seq<char>,
    f: spec_fn(char) -> Seq<char>,
    g: spec_fn(char) -> Seq<char>,
    pat: Seq<char>,
    rep: Seq<char>,
)
    requires
        pat.len() >= 2,
        pat[0] == '&',
        forall|c: char| #[trigger] f(c) == pat ==> g(c) == rep,
        forall|c: char| #[trigger] f(c) != pat ==> g(c) == f(c) && no_match_inside(f(c), pat),
    ensures
        replace_all(map_join(s, f), pat, rep) == map_join(s, g),
    decreases s.len(),
{
    if s.len() > 0 {
        let c = s[0];
        let rest = map_join(s.drop_first(), f);
        lemma_replace_map_join(s.drop_first(), f, g, pat, rep);
        let x = f(c) + rest;
        if f(c) == pat {
            assert(x.take(pat.len() as int) =~= pat);
            assert(x.skip(pat.len() as int) =~= rest);
        } else {
            lemma_replace_passes(f(c), rest, pat, rep);
        }
    }
}

proof fn lemma_escape_html_map_join(s: Seq<char>)
    ensures
        escape_html(s) == map_join(s, |c: char| escape_char(c)),
    decreases s.len(),
{
    if s.len() > 0 {
        lemma_escape_html_front(s);
        lemma_escape_html_map_join(s.drop_first());
    }
}

proof fn lemma_map_join_identity(s: Seq<char>)
    ensures
        map_join(s, |c: char| seq![c]) == s,
    decreases s.len(),
{
    if s.len() > 0 {
        lemma_map_join_identity(s.drop_first());
        assert(seq![s[0]] + s.drop_first() =~= s);
    }
}

/// Escaped text read back by replacing `&lt;` with `<`, then `&gt;` with `>`, then `&amp;`
/// with `&` gives the original string.
pub proof fn html_escape_replace_roundtrip(s: Seq<char>)
    ensures
        replace_all(
            replace_all(
                replace_all(escape_html(s), seq!['&', 'l', 't', ';'], seq!['<']),
                seq!['&', 'g', 't', ';'],
                seq!['>'],
            ),
            seq!['&', 'a', 'm', 'p', ';'],
            seq!['&'],
        ) == s,
{
    let amp = seq!['&', 'a', 'm', 'p', ';'];
    let lt = seq!['&', 'l', 't', ';'];
    let gt = seq!['&', 'g', 't', ';'];
    let f0 = |c: char| escape_char(c);
    let f1 = |c: char| escape_amp_gt(c);
    let f2 = |c: char| escape_amp(c);
    let f3 = |c: char| seq![c];
    lemma_escape_html_map_join(s);
    assert forall|c: char| #[trigger] f0(c) == lt ==> f1(c) == seq!['<'] by {
        if f0(c) == lt {
            if c == '&' {
                assert(f0(c).len() == 5);
            } else if c == '>' {
                assert(f0(c)[1] == 'g');
            } else if c != '<' {
                assert(f0(c).len() == 1);
            }
        }
    }
    assert forall|c: char| #[trigger] f0(c) != lt ==> f1(c) == f0(c) && no_match_inside(f0(c), lt) by {
        if f0(c) != lt && c == '<' {
            assert(f0(c) =~= lt);
        }
    }
    lemma_replace_map_join(s, f0, f1, lt, seq!['<']);
    assert forall|c: char| #[trigger] f1(c) == gt ==> f2(c) == seq!['>'] by {
        if f1(c) == gt {
            if c == '&' {
                assert(f1(c).len() == 5);
            } else if c != '>' {
                assert(f1(c).len() == 1);
            }
        }
    }
    assert forall|c: char| #[trigger] f1(c) != gt ==> f2(c) == f1(c) && no_match_inside(f1(c), gt) by {
        if f1(c) != gt && c == '>' {
            assert(f1(c) =~= gt);
        }
    }
    lemma_replace_map_join(s, f1, f2, gt, seq!['>']);
    assert forall|c: char| #[trigger] f2(c) == amp ==> f3(c) == seq!['&'] by {
        if f2(c) == amp && c != '&' {
            assert(f2(c).len() == 1);
        }
    }
    assert forall|c: char| #[trigger] f2(c) != amp ==> f3(c) == f2(c) && no_match_inside(f2(c), amp) by {
        if f2(c) != amp && c == '&' {
            assert(f2(c) =~= amp);
        }
    }
    lemma_replace_map_join(s, f2, f3, amp, seq!['&']);
    lemma_map_join_identity(s);
}

/// Markdown one-liner for a compliance label.
pub open spec fn compliance_md(comp: Seq<char>) -> Seq<char> {
    if comp == "pass"@ {
        "**✅ pass**"@
    } else if comp == "fail"@ {
        "**❌ fail**"@
    } else {
        "**⚪ "@ + comp + "**"@
    }
}

/// Professional one-line compliance for markdown (emoji + text).
pub fn compliance_emoji_md(comp: &str) -> (r: String)
    ensures
        r@ == compliance_md(comp@),
{
    if str_eq(comp, "pass") {
        to_owned_string("**✅ pass**")
    } else if str_eq(comp, "fail") {
        to_owned_string("**❌ fail**")
    } else {
        let mut out = to_owned_string("**⚪ ");
        push_str(&mut out, comp);
        push_str(&mut out, "**");
        out
    }
}

/// Compliance label with its emoji, for HTML badges.
pub open spec fn compliance_label(comp: Seq<char>) -> Seq<char> {
    if comp == "pass"@ {
        "✅ pass"@
    } else if comp == "fail"@ {
        "❌ fail"@
    } else {
        "⚪ "@ + comp
    }
}

pub fn compliance_label_emoji(comp: &str) -> (r: String)
    ensures
        r@ == compliance_label(comp@),
{
    if str_eq(comp, "pass") {
        to_owned_string("✅ pass")
    } else if str_eq(comp, "fail") {
        to_owned_string("❌ fail")
    } else {
        let mut out = to_owned_string("⚪ ");
        push_str(&mut out, comp);
        out
    }
}

/// Emoji prefix for a profile statement section title.
pub open spec fn section_emoji(title: Seq<char>) -> Seq<char> {
    if seq_contains(title, "Content"@) && seq_contains(title, "Information"@) {
        "📄 "@
    } else if seq_contains(title, "Manifest"@) {
        "📦 "@
    } else if seq_contains(title, "Action"@) {
        "⚙️ "@
    } else if eq_ignore_ascii_case(title, "Compliance"@) {
        "📊 "@
    } else {
        "▪️ "@
    }
}

/// Emoji prefix for profile statement section titles (subtle categorization).
pub fn profile_section_emoji(title: &str) -> (r: &'static str)
    ensures
        r@ == section_emoji(title@),
{
    if str_contains(title, "Content") && str_contains(title, "Information") {
        "📄 "
    } else if str_contains(title, "Manifest") {
        "📦 "
    } else if str_contains(title, "Action") {
        "⚙️ "
    } else if str_eq_ignore_ascii_case(title, "Compliance") {
        "📊 "
    } else {
        "▪️ "
    }
}

/// The first statement item whose `id` is the profile compliance statement.
pub open spec fn compliance_item(items: Seq<JsonData>) -> Option<JsonData>
    decreases items.len(),
{
    if items.len() == 0 {
        None
    } else if items[0].get_str("id"@) == Some("c2pa:profile_compliance"@) {
        Some(items[0])
    } else {
        compliance_item(items.drop_first())
    }
}

/// Compliance found in the statement sections, scanned in order; a section that
/// is not an array ends the scan with no answer.
pub open spec fn compliance_in_sections(sections: Seq<JsonData>) -> Option<bool>
    decreases sections.len(),
{
    if sections.len() == 0 {
        None
    } else {
        match sections[0].as_array() {
            None => None,
            Some(items) => match compliance_item(items) {
                Some(item) => match item.get("value"@) {
                    Some(v) => v.as_bool(),
                    None => None,
                },
                None => compliance_in_sections(sections.drop_first()),
            },
        }
    }
}

/// The boolean value of the `c2pa:profile_compliance` statement of a profile evaluation.
pub open spec fn profile_compliance(eval: Option<JsonData>) -> Option<bool> {
    match eval {
        None => None,
        Some(e) => match e.get("statements"@) {
            None => None,
            Some(st) => match st.as_array() {
                None => None,
                Some(sections) => compliance_in_sections(sections),
            },
        },
    }
}

pub open spec fn opt_data(v: Option<&JsonValue>) -> Option<JsonData> {
    match v {
        Some(x) => Some(x.data()),
        None => None,
    }
}

fn compliance_item_from(items: &Vec<JsonValue>, i: usize) -> (r: Option<&JsonValue>)
    requires
        i <= items.len(),
    ensures
        opt_data(r) == compliance_item(crate::json::datas(items@).skip(i as int)),
    decreases items.len() - i,
{
    let ghost ds = crate::json::datas(items@);
    if i == items.len() {
        assert(ds.skip(i as int) =~= Seq::<JsonData>::empty());
        return None;
    }
    let item = &items[i];
    proof {
        assert(ds.skip(i as int)[0] == item.data());
        assert(ds.skip(i as int).drop_first() =~= ds.skip(i + 1));
    }
    let is_compliance = match item.get("id") {
        Some(id) => match id.as_str() {
            Some(t) => str_eq(t, "c2pa:profile_compliance"),
            None => false,
        },
        None => false,
    };
    if is_compliance {
        Some(item)
    } else {
        compliance_item_from(items, i + 1)
    }
}

fn compliance_from_sections(sections: &Vec<JsonValue>, i: usize) -> (r: Option<bool>)
    requires
        i <= sections.len(),
    ensures
        r == compliance_in_sections(crate::json::datas(sections@).skip(i as int)),
    decreases sections.len() - i,
{
    let ghost ds = crate::json::datas(sections@);
    if i == sections.len() {
        assert(ds.skip(i as int) =~= Seq::<JsonData>::empty());
        return None;
    }
    let section = &sections[i];
    proof {
        assert(ds.skip(i as int)[0] == section.data());
        assert(ds.skip(i as int).drop_first() =~= ds.skip(i + 1));
    }
    match section.as_array() {
        None => None,
        Some(items) => {
            proof {
                crate::json::lemma_array_data(section);
                assert(crate::json::datas(items@).skip(0) =~= crate::json::datas(items@));
            }
            match compliance_item_from(items, 0) {
                Some(item) => match item.get("value") {
                    Some(v) => v.as_bool(),
                    None => None,
                },
                None => compliance_from_sections(sections, i + 1),
            }
        },
    }
}

pub fn profile_compliance_value(profile_evaluation: Option<&JsonValue>) -> (r: Option<bool>)
    ensures
        r == profile_compliance(opt_data(profile_evaluation)),
{
    let eval = match profile_evaluation {
        Some(e) => e,
        None => return None,
    };
    let statements = match eval.get("statements") {
        Some(s) => s,
        None => return None,
    };
    match statements.as_array() {
        Some(sections) => {
            proof {
                crate::json::lemma_array_data(statements);
                assert(crate::json::datas(sections@).skip(0) =~= crate::json::datas(sections@));
            }
            compliance_from_sections(sections, 0)
        },
        None => None,
    }
}

/// Compliance label: `pass`, `fail` or `unknown`.
pub open spec fn compliance_text(eval: Option<JsonData>) -> Seq<char> {
    match profile_compliance(eval) {
        Some(true) => "pass"@,
        Some(false) => "fail"@,
        None => "unknown"@,
    }
}

pub fn render_profile_compliance(profile_evaluation: Option<&JsonValue>) -> (r: &'static str)
    ensures
        r@ == compliance_text(opt_data(profile_evaluation)),
{
    match profile_compliance_value(profile_evaluation) {
        Some(true) => "pass",
        Some(false) => "fail",
        None => "unknown",
    }
}

/// The contents of an optional string.
pub open spec fn opt_str(o: Option<String>) -> Option<Seq<char>> {
    match o {
        Some(s) => Some(s@),
        None => None,
    }
}


/// The contents of a status record.
pub struct StatusView {
    pub code: Seq<char>,
    pub url: Option<Seq<char>>,
    pub explanation: Option<Seq<char>>,
    pub kind: Seq<char>,
}

impl View for StatusRecord {
    type V = StatusView;

    open spec fn view(&self) -> StatusView {
        StatusView {
            code: self.code@,
            url: opt_str(self.url),
            explanation: opt_str(self.explanation),
            kind: self.kind@,
        }
    }
}

/// The contents of a sequence of status records.
pub open spec fn status_views(s: Seq<StatusRecord>) -> Seq<StatusView> {
    s.map_values(|r: StatusRecord| r@)
}

} // verus!
