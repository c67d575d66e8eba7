use vstd::prelude::*;
use crate::json::{JsonData, JsonValue, json_text, json_to_string, datas, lemma_array_data};
use crate::report::{
    section_emoji, profile_section_emoji, opt_data, AssetReport, CrJsonReport, CrJsonValidationReport,
    ManifestRecord, ReportItem, StatusRecord, AssertionRecord, state_name, render_state, compliance_md,
    compliance_text, compliance_emoji_md, render_profile_compliance, status_list_text, deref_records,
    claim_pred, signing_pred, timestamp_pred, partition_validation_statuses, format_status_list,
};
use crate::text::{
    concat_map, concat_indexed, lemma_concat_map_step, lemma_concat_indexed_step, lemma_concat_map_push,
    lemma_take_all, push_str, to_owned_string, decimal, decimal_string,
};

verus! {

// ---------------------------------------------------------------------------
// Profile evaluation details
// ---------------------------------------------------------------------------

/// A statement value as shown in a report: a string's own text, otherwise its JSON text.
pub open spec fn value_text(v: JsonData) -> Seq<char> {
    match v {
        JsonData::Str(s) => s,
        _ => json_text(v),
    }
}

/// Row marker for a statement value.
pub open spec fn row_emoji(v: JsonData) -> Seq<char> {
    match v {
        JsonData::Bool(true) => "✅ "@,
        JsonData::Bool(false) => "❌ "@,
        _ => "▪️ "@,
    }
}

/// One metadata line, present when the key holds a string.
pub open spec fn meta_line_md(meta: JsonData, key: Seq<char>) -> Seq<char> {
    match meta.get_str(key) {
        Some(v) => "- **"@ + key + ":** "@ + v + "\n"@,
        None => Seq::empty(),
    }
}

/// The profile metadata block.
pub open spec fn metadata_md(e: JsonData) -> Seq<char> {
    match e.get("profile_metadata"@) {
        Some(meta) => "### ℹ️ Profile metadata\n\n"@ + meta_line_md(meta, "name"@) + meta_line_md(meta, "issuer"@)
            + meta_line_md(meta, "date"@) + meta_line_md(meta, "version"@) + meta_line_md(meta, "language"@)
            + "\n"@,
        None => Seq::empty(),
    }
}

/// The first item of a section that has a `title` member.
pub open spec fn first_titled(items: Seq<JsonData>) -> Option<JsonData>
    decreases items.len(),
{
    if items.len() == 0 {
        None
    } else if items[0].get("title"@) is Some {
        Some(items[0])
    } else {
        first_titled(items.drop_first())
    }
}

/// The section title: the `title` string of its first titled item.
pub open spec fn section_title(items: Seq<JsonData>) -> Option<Seq<char>> {
    match first_titled(items) {
        Some(item) => item.get_str("title"@),
        None => None,
    }
}

pub open spec fn section_title_md(items: Seq<JsonData>) -> Seq<char> {
    match section_title(items) {
        Some(t) => "### "@ + section_emoji(t) + t + "\n\n"@,
        None => Seq::empty(),
    }
}

/// An item that only carries a section title and its text.
pub open spec fn is_title_item(item: JsonData) -> bool {
    item.get("title"@) is Some && item.get("report_text"@) is Some && item.get("value"@) is None
}

/// The `id` of an item, empty when absent.
pub open spec fn item_id(item: JsonData) -> Seq<char> {
    match item.get_str("id"@) {
        Some(i) => i,
        None => Seq::empty(),
    }
}

/// Markdown for one statement item.
pub open spec fn item_md(item: JsonData) -> Seq<char> {
    if is_title_item(item) {
        match item.get_str("report_text"@) {
            Some(t) => t + "\n\n"@,
            None => Seq::empty(),
        }
    } else {
        match item.get_str("report_text"@) {
            Some(rt) => match item.get("value"@) {
                Some(v) => if item_id(item).len() == 0 {
                    "- "@ + row_emoji(v) + "`"@ + value_text(v) + "` — "@ + rt + "\n"@
                } else {
                    "- "@ + row_emoji(v) + "**"@ + item_id(item) + ":** `"@ + value_text(v) + "` — "@ + rt
                        + "\n"@
                },
                None => "- "@ + rt + "\n"@,
            },
            None => Seq::empty(),
        }
    }
}

pub open spec fn item_md_fn() -> spec_fn(JsonData) -> Seq<char> {
    |item: JsonData| item_md(item)
}

/// Markdown for one statement section; sections that are not arrays are skipped.
pub open spec fn section_md(section: JsonData) -> Seq<char> {
    match section.as_array() {
        Some(items) => section_title_md(items) + concat_map(items, item_md_fn()) + "\n"@,
        None => Seq::empty(),
    }
}

pub open spec fn section_md_fn() -> spec_fn(JsonData) -> Seq<char> {
    |section: JsonData| section_md(section)
}

pub open spec fn statements_md(e: JsonData) -> Seq<char> {
    match e.get("statements"@) {
        Some(st) => match st.as_array() {
            Some(sections) => concat_map(sections, section_md_fn()),
            None => Seq::empty(),
        },
        None => Seq::empty(),
    }
}

/// Markdown for the metadata and statements of a profile evaluation.
pub open spec fn profile_details_md(e: JsonData) -> Seq<char> {
    metadata_md(e) + statements_md(e)
}

/// Text of a statement value.
pub fn value_string(v: &JsonValue) -> (r: String)
    ensures
        r@ == value_text(v.data()),
{
    match v {
        JsonValue::String(s) => to_owned_string(s.as_str()),
        _ => json_to_string(v),
    }
}

pub(crate) fn row_emoji_str(v: &JsonValue) -> (r: &'static str)
    ensures
        r@ == row_emoji(v.data()),
{
    match v {
        JsonValue::Bool(true) => "✅ ",
        JsonValue::Bool(false) => "❌ ",
        _ => "▪️ ",
    }
}

/// Member `key` of `v` as a string.
pub fn get_str<'a>(v: &'a JsonValue, key: &str) -> (r: Option<&'a str>)
    ensures
        r is None <==> v.data().get_str(key@) is None,
        r matches Some(s) ==> v.data().get_str(key@) == Some(s@),
{
    match v.get(key) {
        Some(x) => x.as_str(),
        None => None,
    }
}

fn meta_line(meta: &JsonValue, key: &str) -> (r: String)
    ensures
        r@ == meta_line_md(meta.data(), key@),
{
    match get_str(meta, key) {
        Some(v) => {
            let mut out = to_owned_string("- **");
            push_str(&mut out, key);
            push_str(&mut out, ":** ");
            push_str(&mut out, v);
            push_str(&mut out, "\n");
            out
        },
        None => String::new(),
    }
}

fn metadata_string(e: &JsonValue) -> (r: String)
    ensures
        r@ == metadata_md(e.data()),
{
    match e.get("profile_metadata") {
        Some(meta) => {
            let mut out = to_owned_string("### ℹ️ Profile metadata\n\n");
            let l = meta_line(meta, "name");
            push_str(&mut out, l.as_str());
            let l = meta_line(meta, "issuer");
            push_str(&mut out, l.as_str());
            let l = meta_line(meta, "date");
            push_str(&mut out, l.as_str());
            let l = meta_line(meta, "version");
            push_str(&mut out, l.as_str());
            let l = meta_line(meta, "language");
            push_str(&mut out, l.as_str());
            push_str(&mut out, "\n");
            out
        },
        None => String::new(),
    }
}

pub(crate) fn first_titled_from(items: &Vec<JsonValue>, i: usize) -> (r: Option<&JsonValue>)
    requires
        i <= items.len(),
    ensures
        opt_data(r) == first_titled(datas(items@).skip(i as int)),
    decreases items.len() - i,
{
    let ghost ds = datas(items@);
    if i == items.len() {
        assert(ds.skip(i as int) =~= Seq::<JsonData>::empty());
        return None;
    }
    proof {
        assert(ds.skip(i as int)[0] == items@[i as int].data());
        assert(ds.skip(i as int).drop_first() =~= ds.skip(i + 1));
    }
    if items[i].get("title").is_some() {
        Some(&items[i])
    } else {
        first_titled_from(items, i + 1)
    }
}

fn section_title_string(items: &Vec<JsonValue>) -> (r: String)
    ensures
        r@ == section_title_md(datas(items@)),
{
    assert(datas(items@).skip(0) =~= datas(items@));
    let title = match first_titled_from(items, 0) {
        Some(item) => get_str(item, "title"),
        None => None,
    };
    match title {
        Some(t) => {
            let mut out = to_owned_string("### ");
            push_str(&mut out, profile_section_emoji(t));
            push_str(&mut out, t);
            push_str(&mut out, "\n\n");
            out
        },
        None => String::new(),
    }
}

fn item_string(item: &JsonValue) -> (r: String)
    ensures
        r@ == item_md(item.data()),
{
    if item.get("title").is_some() && item.get("report_text").is_some() && item.get("value").is_none() {
        match get_str(item, "report_text") {
            Some(t) => {
                let mut out = to_owned_string(t);
                push_str(&mut out, "\n\n");
                out
            },
            None => String::new(),
        }
    } else {
        match get_str(item, "report_text") {
            Some(rt) => match item.get("value") {
                Some(v) => {
                    let id = match get_str(item, "id") {
                        Some(i) => i,
                        None => "",
                    };
                    proof {
                        reveal_strlit("");
                    }
                    let vs = value_string(v);
                    let mut out = to_owned_string("- ");
                    push_str(&mut out, row_emoji_str(v));
                    if id.is_empty() {
                        push_str(&mut out, "`");
                        push_str(&mut out, vs.as_str());
                        push_str(&mut out, "` — ");
                    } else {
                        push_str(&mut out, "**");
                        push_str(&mut out, id);
                        push_str(&mut out, ":** `");
                        push_str(&mut out, vs.as_str());
                        push_str(&mut out, "` — ");
                    }
                    push_str(&mut out, rt);
                    push_str(&mut out, "\n");
                    out
                },
                None => {
                    let mut out = to_owned_string("- ");
                    push_str(&mut out, rt);
                    push_str(&mut out, "\n");
                    out
                },
            },
            None => String::new(),
        }
    }
}

fn section_string(section: &JsonValue) -> (r: String)
    ensures
        r@ == section_md(section.data()),
{
    proof {
        lemma_array_data(section);
    }
    match section.as_array() {
        Some(items) => {
            let ghost ds = datas(items@);
            let mut out = section_title_string(items);
            let mut body = String::new();
            let mut i: usize = 0;
            while i < items.len()
                invariant
                    i <= items@.len(),
                    ds == datas(items@),
                    body@ == concat_map(ds.take(i as int), item_md_fn()),
                decreases items@.len() - i,
            {
                proof {
                    lemma_concat_map_step(ds, item_md_fn(), i as int);
                }
                let t = item_string(&items[i]);
                push_str(&mut body, t.as_str());
                i = i + 1;
            }
            proof {
                lemma_take_all(ds);
            }
            push_str(&mut out, body.as_str());
            push_str(&mut out, "\n");
            out
        },
        None => String::new(),
    }
}

fn statements_string(e: &JsonValue) -> (r: String)
    ensures
        r@ == statements_md(e.data()),
{
    match e.get("statements") {
        Some(st) => {
            proof {
                lemma_array_data(st);
            }
            match st.as_array() {
                Some(sections) => {
                    let ghost ds = datas(sections@);
                    let mut out = String::new();
                    let mut i: usize = 0;
                    while i < sections.len()
                        invariant
                            i <= sections@.len(),
                            ds == datas(sections@),
                            out@ == concat_map(ds.take(i as int), section_md_fn()),
                        decreases sections@.len() - i,
                    {
                        proof {
                            lemma_concat_map_step(ds, section_md_fn(), i as int);
                        }
                        let t = section_string(&sections[i]);
                        push_str(&mut out, t.as_str());
                        i = i + 1;
                    }
                    proof {
                        lemma_take_all(ds);
                    }
                    out
                },
                None => String::new(),
            }
        },
        None => String::new(),
    }
}

/// Renders profile_metadata and statements from profile evaluation JSON as markdown.
pub fn render_profile_details_md(eval: &JsonValue) -> (r: String)
    ensures
        r@ == profile_details_md(eval.data()),
{
    let mut out = metadata_string(eval);
    let s = statements_string(eval);
    push_str(&mut out, s.as_str());
    out
}

// ---------------------------------------------------------------------------
// Report
// ---------------------------------------------------------------------------

pub open spec fn title_md(profile_only: bool) -> Seq<char> {
    if profile_only {
        "# 📝 C2PA Conformance Report\n\n"@
    } else {
        "# C2PA Conformance Report\n\n"@
    }
}

pub open spec fn generation_info_md(r: CrJsonReport) -> Seq<char> {
    "## Report Generation Info\n\n"@ + "**Tool:** "@ + r.tool.name@ + " "@ + r.tool.version@ + "  \n**Generated:** "@
        + r.generated_at@ + "\n"@
}

/// `- text` on a line of its own.
pub open spec fn bullet(s: Seq<char>) -> Seq<char> {
    "- "@ + s + "\n"@
}

/// Each string on a line of its own after `label`.
pub open spec fn label_line_fn(label: Seq<char>) -> spec_fn(String) -> Seq<char> {
    |s: String| label + s@ + "\n"@
}

pub open spec fn bullet_fn() -> spec_fn(String) -> Seq<char> {
    label_line_fn("- "@)
}

pub open spec fn note_fn() -> spec_fn(String) -> Seq<char> {
    label_line_fn("- **Note:** "@)
}

/// A labelled line of an optional value.
pub open spec fn opt_line(o: Option<String>, label: Seq<char>) -> Seq<char> {
    match o {
        Some(v) => label + v@ + "\n"@,
        None => Seq::empty(),
    }
}

pub open spec fn header_md(a: AssetReport, profile_only: bool) -> Seq<char> {
    if profile_only {
        "**📁 Asset:** "@ + a.input.resolved_path@ + "\n\n"@ + "**📄 Format:** "@ + a.input.detected_format@ + "\n\n"@
    } else {
        "**Asset:** "@ + a.input.resolved_path@ + "\n\n"@ + "**Format:** "@ + a.input.detected_format@ + "\n\n"@
    }
}

pub open spec fn evaluation_of(a: AssetReport) -> Option<JsonData> {
    match a.profile_evaluation {
        Some(e) => Some(e.data()),
        None => None,
    }
}

/// Profile-only view: profile path, compliance and evaluation details.
pub open spec fn profile_block_md(a: AssetReport) -> Seq<char> {
    match a.profile_path {
        Some(pp) => "## 📝 Profile\n\n"@ + "- **Profile:** `"@ + pp@ + "`\n- **Compliance:** "@
            + compliance_md(compliance_text(evaluation_of(a))) + "\n\n"@ + match a.profile_evaluation {
            Some(e) => profile_details_md(e.data()),
            None => Seq::empty(),
        },
        None => Seq::empty(),
    }
}

/// A labelled status list line, present when the group is non-empty.
pub open spec fn group_md(label: Seq<char>, statuses: Seq<StatusRecord>) -> Seq<char> {
    if statuses.len() == 0 {
        Seq::empty()
    } else {
        label + status_list_text(statuses) + "\n"@
    }
}

pub open spec fn trust_block_md(a: AssetReport) -> Seq<char> {
    "## Validation & Trust\n\n"@ + "- **Trust Status:** `"@ + state_name(a.validation_state) + "`\n"@
        + concat_map(a.trust.notes@, note_fn())
        + group_md("- **Claim signature:** "@, a.statuses@.filter(claim_pred()))
        + group_md("- **Signing certificate:** "@, a.statuses@.filter(signing_pred()))
        + group_md("- **Timestamp:** "@, a.statuses@.filter(timestamp_pred())) + "\n"@
}

pub open spec fn profile_summary_md(a: AssetReport) -> Seq<char> {
    match a.profile_path {
        Some(pp) => "## Profile\n\n"@ + "- **Profile:** `"@ + pp@ + "`\n- **Compliance:** `"@
            + compliance_text(evaluation_of(a)) + "`\n\n"@,
        None => Seq::empty(),
    }
}

/// Heading of a manifest: its title, else its label, else `(unnamed)`.
pub open spec fn manifest_heading(m: ManifestRecord) -> Seq<char> {
    match m.title {
        Some(t) => t@,
        None => match m.label {
            Some(l) => l@,
            None => "(unnamed)"@,
        },
    }
}

pub open spec fn claim_md(m: ManifestRecord) -> Seq<char> {
    "#### Claim\n\n"@ + opt_line(m.claim_version, "- **Claim version:** "@) + opt_line(
        m.claim_generator,
        "- **Claim generator:** "@,
    ) + (if m.claim_version is None && m.claim_generator is None {
        "- *(none)*\n"@
    } else {
        Seq::empty()
    }) + "\n"@
}

pub open spec fn signature_md(m: ManifestRecord) -> Seq<char> {
    "#### Signature Info\n\n"@ + match m.signature {
        Some(sig) => opt_line(sig.common_name, "- **Signing (CN):** "@) + opt_line(sig.issuer, "- **Issuer:** "@)
            + opt_line(sig.time, "- **Time:** "@),
        None => "- *(none)*\n"@,
    } + "\n"@
}

pub open spec fn assertion_fn() -> spec_fn(AssertionRecord) -> Seq<char> {
    |a: AssertionRecord| bullet(a.label@)
}

pub open spec fn assertions_md(m: ManifestRecord) -> Seq<char> {
    "#### Assertions\n\n"@ + concat_map(m.assertions@, assertion_fn()) + (if m.assertions@.len() == 0 {
        "- *(none)*\n"@
    } else {
        Seq::empty()
    }) + "\n"@
}

/// A status line: code, and explanation after a dash when present.
pub open spec fn status_line_md(s: StatusRecord) -> Seq<char> {
    "- `"@ + s.code@ + "`"@ + match s.explanation {
        Some(e) => " — "@ + e@,
        None => Seq::empty(),
    } + "\n"@
}

pub open spec fn status_line_fn() -> spec_fn(StatusRecord) -> Seq<char> {
    |s: StatusRecord| status_line_md(s)
}

pub open spec fn kind_pred(kind: Seq<char>) -> spec_fn(StatusRecord) -> bool {
    |s: StatusRecord| s.kind@ == kind
}

/// The statuses of one kind under a sub-heading, present when there are any.
pub open spec fn kind_md(subheading: Seq<char>, kind: Seq<char>, statuses: Seq<StatusRecord>) -> Seq<char> {
    let items = statuses.filter(kind_pred(kind));
    if items.len() == 0 {
        Seq::empty()
    } else {
        "##### "@ + subheading + "\n\n"@ + concat_map(items, status_line_fn()) + "\n"@
    }
}

pub open spec fn validation_md(m: ManifestRecord) -> Seq<char> {
    if m.statuses@.len() == 0 {
        Seq::empty()
    } else {
        "#### Validation\n\n"@ + kind_md("Success"@, "success"@, m.statuses@) + kind_md(
            "Informational"@,
            "informational"@,
            m.statuses@,
        ) + kind_md("Failure"@, "failure"@, m.statuses@)
    }
}

proof fn lemma_filter_keeps_all(s: Seq<StatusRecord>, kind: Seq<char>)
    requires
        forall|k: int| 0 <= k < s.len() ==> #[trigger] s[k].kind@ == kind,
    ensures
        s.filter(kind_pred(kind)) == s,
    decreases s.len(),
{
    reveal(Seq::filter);
    if s.len() > 0 {
        lemma_filter_keeps_all(s.drop_last(), kind);
        assert(s.drop_last().push(s.last()) =~= s);
    }
}

proof fn lemma_filter_keeps_none(s: Seq<StatusRecord>, kind: Seq<char>)
    requires
        forall|k: int| 0 <= k < s.len() ==> #[trigger] s[k].kind@ != kind,
    ensures
        s.filter(kind_pred(kind)).len() == 0,
    decreases s.len(),
{
    reveal(Seq::filter);
    if s.len() > 0 {
        lemma_filter_keeps_none(s.drop_last(), kind);
    }
}

/// A manifest whose statuses are all of one kind lists every one of them, in order, under
/// that kind's sub-heading (`Success`, `Informational` or `Failure`) and under no other.
pub proof fn lemma_validation_md_single_kind(m: ManifestRecord, kind: Seq<char>, heading: Seq<char>)
    requires
        m.statuses@.len() > 0,
        (kind == "success"@ && heading == "Success"@) || (kind == "informational"@ && heading
            == "Informational"@) || (kind == "failure"@ && heading == "Failure"@),
        forall|k: int| 0 <= k < m.statuses@.len() ==> #[trigger] m.statuses@[k].kind@ == kind,
    ensures
        validation_md(m) == "#### Validation\n\n##### "@ + heading + "\n\n"@ + concat_map(
            m.statuses@,
            status_line_fn(),
        ) + "\n"@,
{
    reveal_strlit("success");
    reveal_strlit("informational");
    reveal_strlit("failure");
    reveal_strlit("#### Validation\n\n");
    reveal_strlit("##### ");
    reveal_strlit("#### Validation\n\n##### ");
    let st = m.statuses@;
    assert("success"@[0] != "failure"@[0]);
    assert("success"@.len() != "informational"@.len());
    assert("failure"@.len() != "informational"@.len());
    lemma_filter_keeps_all(st, kind);
    let body = "##### "@ + heading + "\n\n"@ + concat_map(st, status_line_fn()) + "\n"@;
    if kind == "success"@ {
        lemma_filter_keeps_none(st, "informational"@);
        lemma_filter_keeps_none(st, "failure"@);
        assert(kind_md("Success"@, "success"@, st) == body);
        assert(kind_md("Informational"@, "informational"@, st) =~= Seq::<char>::empty());
        assert(kind_md("Failure"@, "failure"@, st) =~= Seq::<char>::empty());
    } else if kind == "informational"@ {
        lemma_filter_keeps_none(st, "success"@);
        lemma_filter_keeps_none(st, "failure"@);
        assert(kind_md("Success"@, "success"@, st) =~= Seq::<char>::empty());
        assert(kind_md("Informational"@, "informational"@, st) == body);
        assert(kind_md("Failure"@, "failure"@, st) =~= Seq::<char>::empty());
    } else {
        lemma_filter_keeps_none(st, "success"@);
        lemma_filter_keeps_none(st, "informational"@);
        assert(kind_md("Success"@, "success"@, st) =~= Seq::<char>::empty());
        assert(kind_md("Informational"@, "informational"@, st) =~= Seq::<char>::empty());
        assert(kind_md("Failure"@, "failure"@, st) == body);
    }
    assert(validation_md(m) =~= "#### Validation\n\n##### "@ + heading + "\n\n"@ + concat_map(
        st,
        status_line_fn(),
    ) + "\n"@);
}

/// Markdown for the manifest at position `i` (numbered from one).
pub open spec fn manifest_md(i: int, m: ManifestRecord) -> Seq<char> {
    "### Manifest "@ + decimal((i + 1) as nat) + ": "@ + manifest_heading(m) + "\n\n"@ + claim_md(m) + signature_md(m)
        + assertions_md(m) + validation_md(m)
}

pub open spec fn manifest_md_fn() -> spec_fn(int, ManifestRecord) -> Seq<char> {
    |i: int, m: ManifestRecord| manifest_md(i, m)
}

pub open spec fn manifests_md(a: AssetReport) -> Seq<char> {
    "## Manifests\n\n"@ + concat_indexed(a.manifests@, manifest_md_fn())
}

pub open spec fn warnings_md(a: AssetReport) -> Seq<char> {
    if a.warnings@.len() == 0 {
        Seq::empty()
    } else {
        "## Warnings\n\n"@ + concat_map(a.warnings@, bullet_fn()) + "\n"@
    }
}

pub open spec fn asset_md(a: AssetReport, profile_only: bool) -> Seq<char> {
    header_md(a, profile_only) + (if profile_only {
        profile_block_md(a)
    } else {
        trust_block_md(a) + profile_summary_md(a) + manifests_md(a)
    }) + warnings_md(a)
}

pub open spec fn crjson_md(c: CrJsonValidationReport) -> Seq<char> {
    "**Asset:** "@ + c.input.resolved_path@ + "\n\n"@ + "**Format:** crJSON\n\n"@ + "## Validation\n\n"@
        + "- **Result:** `"@ + (if c.valid { "pass"@ } else { "fail"@ }) + "`\n"@ + (if c.messages@.len() == 0 {
        Seq::empty()
    } else {
        "\n**Messages:**\n\n"@ + concat_map(c.messages@, bullet_fn())
    })
}

pub open spec fn result_md(item: ReportItem, profile_only: bool) -> Seq<char> {
    match item {
        ReportItem::Asset(a) => asset_md(a, profile_only),
        ReportItem::CrJsonValidation(c) => crjson_md(c),
    }
}

/// The markdown report: a title, the first result, and the generation info.
pub open spec fn report_md(r: CrJsonReport, profile_only: bool) -> Seq<char> {
    if r.results@.len() == 0 {
        title_md(profile_only) + generation_info_md(r)
    } else {
        title_md(profile_only) + result_md(r.results@[0], profile_only) + generation_info_md(r)
    }
}

fn lines_string(items: &Vec<String>, label: &str) -> (r: String)
    ensures
        r@ == concat_map(items@, label_line_fn(label@)),
{
    let ghost f = label_line_fn(label@);
    let mut out = String::new();
    let mut i: usize = 0;
    while i < items.len()
        invariant
            i <= items@.len(),
            f == label_line_fn(label@),
            out@ == concat_map(items@.take(i as int), f),
        decreases items@.len() - i,
    {
        proof {
            lemma_concat_map_step(items@, f, i as int);
        }
        let mut line = to_owned_string(label);
        push_str(&mut line, items[i].as_str());
        push_str(&mut line, "\n");
        push_str(&mut out, line.as_str());
        i = i + 1;
    }
    proof {
        lemma_take_all(items@);
    }
    out
}

fn header_string(a: &AssetReport, profile_only: bool) -> (r: String)
    ensures
        r@ == header_md(*a, profile_only),
{
    let mut out = if profile_only {
        to_owned_string("**📁 Asset:** ")
    } else {
        to_owned_string("**Asset:** ")
    };
    push_str(&mut out, a.input.resolved_path.as_str());
    push_str(&mut out, "\n\n");
    if profile_only {
        push_str(&mut out, "**📄 Format:** ");
    } else {
        push_str(&mut out, "**Format:** ");
    }
    push_str(&mut out, a.input.detected_format.as_str());
    push_str(&mut out, "\n\n");
    out
}

pub(crate) fn evaluation_ref(a: &AssetReport) -> (r: Option<&JsonValue>)
    ensures
        opt_data(r) == evaluation_of(*a),
        r is Some <==> a.profile_evaluation is Some,
{
    match &a.profile_evaluation {
        Some(e) => Some(e),
        None => None,
    }
}

fn profile_block_string(a: &AssetReport) -> (r: String)
    ensures
        r@ == profile_block_md(*a),
{
    match &a.profile_path {
        Some(pp) => {
            let comp = render_profile_compliance(evaluation_ref(a));
            let mut out = to_owned_string("## 📝 Profile\n\n");
            push_str(&mut out, "- **Profile:** `");
            push_str(&mut out, pp.as_str());
            push_str(&mut out, "`\n- **Compliance:** ");
            let c = compliance_emoji_md(comp);
            push_str(&mut out, c.as_str());
            push_str(&mut out, "\n\n");
            match &a.profile_evaluation {
                Some(e) => {
                    let d = render_profile_details_md(e);
                    push_str(&mut out, d.as_str());
                },
                None => {
                    push_str(&mut out, "");
                    proof {
                        reveal_strlit("");
                    }
                },
            }
            out
        },
        None => String::new(),
    }
}

fn group_string(label: &str, statuses: Vec<&StatusRecord>) -> (r: String)
    ensures
        r@ == group_md(label@, deref_records(statuses@)),
{
    if statuses.len() == 0 {
        String::new()
    } else {
        let mut out = to_owned_string(label);
        let l = format_status_list(statuses);
        push_str(&mut out, l.as_str());
        push_str(&mut out, "\n");
        out
    }
}

fn trust_block_string(a: &AssetReport) -> (r: String)
    ensures
        r@ == trust_block_md(*a),
{
    let mut out = to_owned_string("## Validation & Trust\n\n");
    push_str(&mut out, "- **Trust Status:** `");
    push_str(&mut out, render_state(a.validation_state));
    push_str(&mut out, "`\n");
    let notes = lines_string(&a.trust.notes, "- **Note:** ");
    push_str(&mut out, notes.as_str());
    let (claim_sig, signing_cert, timestamp) = partition_validation_statuses(a.statuses.as_slice());
    let g = group_string("- **Claim signature:** ", claim_sig);
    push_str(&mut out, g.as_str());
    let g = group_string("- **Signing certificate:** ", signing_cert);
    push_str(&mut out, g.as_str());
    let g = group_string("- **Timestamp:** ", timestamp);
    push_str(&mut out, g.as_str());
    push_str(&mut out, "\n");
    out
}

fn profile_summary_string(a: &AssetReport) -> (r: String)
    ensures
        r@ == profile_summary_md(*a),
{
    match &a.profile_path {
        Some(pp) => {
            let mut out = to_owned_string("## Profile\n\n");
            push_str(&mut out, "- **Profile:** `");
            push_str(&mut out, pp.as_str());
            push_str(&mut out, "`\n- **Compliance:** `");
            push_str(&mut out, render_profile_compliance(evaluation_ref(a)));
            push_str(&mut out, "`\n\n");
            out
        },
        None => String::new(),
    }
}

fn opt_line_string(o: &Option<String>, label: &str) -> (r: String)
    ensures
        r@ == opt_line(*o, label@),
{
    match o {
        Some(v) => {
            let mut out = to_owned_string(label);
            push_str(&mut out, v.as_str());
            push_str(&mut out, "\n");
            out
        },
        None => String::new(),
    }
}

fn claim_string(m: &ManifestRecord) -> (r: String)
    ensures
        r@ == claim_md(*m),
{
    let mut out = to_owned_string("#### Claim\n\n");
    let l = opt_line_string(&m.claim_version, "- **Claim version:** ");
    push_str(&mut out, l.as_str());
    let l = opt_line_string(&m.claim_generator, "- **Claim generator:** ");
    push_str(&mut out, l.as_str());
    if m.claim_version.is_none() && m.claim_generator.is_none() {
        push_str(&mut out, "- *(none)*\n");
    } else {
        push_str(&mut out, "");
        proof {
            reveal_strlit("");
        }
    }
    push_str(&mut out, "\n");
    out
}

fn signature_string(m: &ManifestRecord) -> (r: String)
    ensures
        r@ == signature_md(*m),
{
    let mut out = to_owned_string("#### Signature Info\n\n");
    match &m.signature {
        Some(sig) => {
            let mut lines = opt_line_string(&sig.common_name, "- **Signing (CN):** ");
            let l = opt_line_string(&sig.issuer, "- **Issuer:** ");
            push_str(&mut lines, l.as_str());
            let l = opt_line_string(&sig.time, "- **Time:** ");
            push_str(&mut lines, l.as_str());
            push_str(&mut out, lines.as_str());
        },
        None => {
            push_str(&mut out, "- *(none)*\n");
        },
    }
    push_str(&mut out, "\n");
    out
}

fn assertions_string(m: &ManifestRecord) -> (r: String)
    ensures
        r@ == assertions_md(*m),
{
    let mut out = to_owned_string("#### Assertions\n\n");
    let mut body = String::new();
    let mut i: usize = 0;
    while i < m.assertions.len()
        invariant
            i <= m.assertions@.len(),
            body@ == concat_map(m.assertions@.take(i as int), assertion_fn()),
        decreases m.assertions@.len() - i,
    {
        proof {
            lemma_concat_map_step(m.assertions@, assertion_fn(), i as int);
        }
        let mut line = to_owned_string("- ");
        push_str(&mut line, m.assertions[i].label.as_str());
        push_str(&mut line, "\n");
        push_str(&mut body, line.as_str());
        i = i + 1;
    }
    proof {
        lemma_take_all(m.assertions@);
    }
    push_str(&mut out, body.as_str());
    if m.assertions.len() == 0 {
        push_str(&mut out, "- *(none)*\n");
    } else {
        push_str(&mut out, "");
        proof {
            reveal_strlit("");
        }
    }
    push_str(&mut out, "\n");
    out
}

fn status_line_string(s: &StatusRecord) -> (r: String)
    ensures
        r@ == status_line_md(*s),
{
    let mut out = to_owned_string("- `");
    push_str(&mut out, s.code.as_str());
    push_str(&mut out, "`");
    match &s.explanation {
        Some(e) => {
            let mut x = to_owned_string(" — ");
            push_str(&mut x, e.as_str());
            push_str(&mut out, x.as_str());
        },
        None => {
            push_str(&mut out, "");
            proof {
                reveal_strlit("");
            }
        },
    }
    push_str(&mut out, "\n");
    out
}

fn kind_string(subheading: &str, kind: &str, statuses: &Vec<StatusRecord>) -> (r: String)
    ensures
        r@ == kind_md(subheading@, kind@, statuses@),
{
    let ghost p = kind_pred(kind@);
    let mut body = String::new();
    let mut count: usize = 0;
    let mut i: usize = 0;
    while i < statuses.len()
        invariant
            i <= statuses@.len(),
            p == kind_pred(kind@),
            count == statuses@.take(i as int).filter(p).len(),
            count <= i,
            body@ == concat_map(statuses@.take(i as int).filter(p), status_line_fn()),
        decreases statuses@.len() - i,
    {
        proof {
            reveal(Seq::filter);
            assert(statuses@.take(i + 1).drop_last() =~= statuses@.take(i as int));
            assert(statuses@.take(i + 1).last() == statuses@[i as int]);
        }
        if crate::text::str_eq(statuses[i].kind.as_str(), kind) {
            let line = status_line_string(&statuses[i]);
            proof {
                lemma_concat_map_push(statuses@.take(i as int).filter(p), statuses@[i as int], status_line_fn());
            }
            push_str(&mut body, line.as_str());
            count = count + 1;
        }
        i = i + 1;
    }
    proof {
        lemma_take_all(statuses@);
    }
    if count == 0 {
        String::new()
    } else {
        let mut out = to_owned_string("##### ");
        push_str(&mut out, subheading);
        push_str(&mut out, "\n\n");
        push_str(&mut out, body.as_str());
        push_str(&mut out, "\n");
        out
    }
}

fn validation_string(m: &ManifestRecord) -> (r: String)
    ensures
        r@ == validation_md(*m),
{
    if m.statuses.len() == 0 {
        String::new()
    } else {
        let mut out = to_owned_string("#### Validation\n\n");
        let k = kind_string("Success", "success", &m.statuses);
        push_str(&mut out, k.as_str());
        let k = kind_string("Informational", "informational", &m.statuses);
        push_str(&mut out, k.as_str());
        let k = kind_string("Failure", "failure", &m.statuses);
        push_str(&mut out, k.as_str());
        out
    }
}

fn heading_str(m: &ManifestRecord) -> (r: &str)
    ensures
        r@ == manifest_heading(*m),
{
    match &m.title {
        Some(t) => t.as_str(),
        None => match &m.label {
            Some(l) => l.as_str(),
            None => "(unnamed)",
        },
    }
}

fn manifest_string(i: usize, m: &ManifestRecord) -> (r: String)
    requires
        i < usize::MAX,
    ensures
        r@ == manifest_md(i as int, *m),
{
    let mut out = to_owned_string("### Manifest ");
    let n = decimal_string(i + 1);
    push_str(&mut out, n.as_str());
    push_str(&mut out, ": ");
    push_str(&mut out, heading_str(m));
    push_str(&mut out, "\n\n");
    let c = claim_string(m);
    push_str(&mut out, c.as_str());
    let c = signature_string(m);
    push_str(&mut out, c.as_str());
    let c = assertions_string(m);
    push_str(&mut out, c.as_str());
    let c = validation_string(m);
    push_str(&mut out, c.as_str());
    out
}

fn manifests_string(a: &AssetReport) -> (r: String)
    ensures
        r@ == manifests_md(*a),
{
    let mut body = String::new();
    let mut i: usize = 0;
    while i < a.manifests.len()
        invariant
            i <= a.manifests@.len(),
            body@ == concat_indexed(a.manifests@.take(i as int), manifest_md_fn()),
        decreases a.manifests@.len() - i,
    {
        proof {
            lemma_concat_indexed_step(a.manifests@, manifest_md_fn(), i as int);
        }
        let t = manifest_string(i, &a.manifests[i]);
        push_str(&mut body, t.as_str());
        i = i + 1;
    }
    proof {
        lemma_take_all(a.manifests@);
    }
    let mut out = to_owned_string("## Manifests\n\n");
    push_str(&mut out, body.as_str());
    out
}

fn warnings_string(a: &AssetReport) -> (r: String)
    ensures
        r@ == warnings_md(*a),
{
    if a.warnings.len() == 0 {
        String::new()
    } else {
        let mut out = to_owned_string("## Warnings\n\n");
        let l = lines_string(&a.warnings, "- ");
        push_str(&mut out, l.as_str());
        push_str(&mut out, "\n");
        out
    }
}

fn asset_string(a: &AssetReport, profile_only: bool) -> (r: String)
    ensures
        r@ == asset_md(*a, profile_only),
{
    let mut out = header_string(a, profile_only);
    let middle = if profile_only {
        profile_block_string(a)
    } else {
        let mut m = trust_block_string(a);
        let p = profile_summary_string(a);
        push_str(&mut m, p.as_str());
        let ms = manifests_string(a);
        push_str(&mut m, ms.as_str());
        m
    };
    push_str(&mut out, middle.as_str());
    let w = warnings_string(a);
    push_str(&mut out, w.as_str());
    out
}

fn crjson_string(c: &CrJsonValidationReport) -> (r: String)
    ensures
        r@ == crjson_md(*c),
{
    let mut out = to_owned_string("**Asset:** ");
    push_str(&mut out, c.input.resolved_path.as_str());
    push_str(&mut out, "\n\n");
    push_str(&mut out, "**Format:** crJSON\n\n");
    push_str(&mut out, "## Validation\n\n");
    push_str(&mut out, "- **Result:** `");
    if c.valid {
        push_str(&mut out, "pass");
    } else {
        push_str(&mut out, "fail");
    }
    push_str(&mut out, "`\n");
    if c.messages.len() == 0 {
        push_str(&mut out, "");
        proof {
            reveal_strlit("");
        }
    } else {
        let mut m = to_owned_string("\n**Messages:**\n\n");
        let l = lines_string(&c.messages, "- ");
        push_str(&mut m, l.as_str());
        push_str(&mut out, m.as_str());
    }
    out
}

impl CrJsonReport {
    /// Renders the report as markdown.
    pub fn render_markdown(&self, profile_only: bool) -> (r: String)
        ensures
            r@ == report_md(*self, profile_only),
    {
        let mut output = if profile_only {
            to_owned_string("# 📝 C2PA Conformance Report\n\n")
        } else {
            to_owned_string("# C2PA Conformance Report\n\n")
        };
        if self.results.len() > 0 {
            let body = match &self.results[0] {
                ReportItem::Asset(report) => asset_string(report, profile_only),
                ReportItem::CrJsonValidation(report) => crjson_string(report),
            };
            push_str(&mut output, body.as_str());
        }
        let mut info = to_owned_string("## Report Generation Info\n\n");
        push_str(&mut info, "**Tool:** ");
        push_str(&mut info, self.tool.name);
        push_str(&mut info, " ");
        push_str(&mut info, self.tool.version);
        push_str(&mut info, "  \n**Generated:** ");
        push_str(&mut info, self.generated_at.as_str());
        push_str(&mut info, "\n");
        push_str(&mut output, info.as_str());
        output
    }
}

} // verus!
