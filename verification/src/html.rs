use vstd::prelude::*;
use crate::json::{JsonData, JsonValue, datas, lemma_array_data};
use crate::markdown::{
    value_text, section_title, is_title_item, item_id, get_str, value_string, first_titled_from,
    evaluation_of, evaluation_ref, manifest_heading,
};
use crate::report::{
    section_emoji, profile_section_emoji, html_escape, escape_html, opt_data, AssetReport, CrJsonReport,
    CrJsonValidationReport, ManifestRecord, ReportItem, StatusRecord, AssertionRecord, state_name, render_state,
    compliance_text, compliance_label, compliance_label_emoji, render_profile_compliance, status_list_text,
    deref_records, claim_pred, signing_pred, timestamp_pred, partition_validation_statuses, format_status_list,
};
use crate::text::{
    concat_map, concat_indexed, lemma_concat_map_step, lemma_concat_indexed_step, lemma_take_all, push_str,
    to_owned_string, decimal, decimal_string, str_eq, seq_starts_with,
};

verus! {

/// Style sheet of the HTML report.
pub const REPORT_STYLES: &'static str = "
body { font-family: system-ui, -apple-system, sans-serif; margin: 0; padding: 1.5rem 2rem; background: #f5f2ed; color: #1a1a1a; max-width: 56rem; }
h1 { font-size: 1.5rem; margin-bottom: 0.5rem; }
.report-meta { color: #555; font-size: 0.875rem; }
.report-body { padding: 1rem 0; }
.report-body .report-asset { margin: 0 0 0.25rem; word-break: break-all; }
.report-body .report-format { margin: 0 0 1rem; color: #555; }
.report-body h2 { font-size: 1.1rem; margin: 1rem 0 0.5rem; }
.report-body h3 { font-size: 1rem; margin: 0.75rem 0 0.35rem; }
.badge { display: inline-block; padding: 0.2rem 0.5rem; border-radius: 4px; font-size: 0.8rem; font-weight: 600; }
.badge-trusted, .badge-pass { background: #d4edda; color: #155724; }
.badge-valid { background: #cce5ff; color: #004085; }
.badge-invalid, .badge-fail { background: #f8d7da; color: #721c24; }
.badge-unknown { background: #e2e3e5; color: #383d41; }
.trust-status { margin: 0.75rem 0 1rem; padding: 0.75rem 1rem; background: #f0f4f8; border-radius: 8px; border-left: 4px solid #0d6efd; font-size: 1.05rem; }
.trust-status .badge { font-size: 0.95rem; padding: 0.35rem 0.65rem; }
.info-table { border-collapse: collapse; width: 100%; max-width: 40rem; margin: 0.35rem 0; font-size: 0.9rem; }
.info-table th { text-align: left; padding: 0.35rem 0.75rem 0.35rem 0; color: #555; font-weight: 600; width: 10rem; vertical-align: top; }
.info-table td { padding: 0.35rem 0.75rem 0.35rem 0; }
.info-table tr:nth-child(even) td { background: #f9f9f8; }
.info-table tr:nth-child(odd) td { background: #fff; }
details.manifest-details { margin: 0.5rem 0; border: 1px solid #d4c8b2; border-radius: 8px; background: #fff; overflow: hidden; }
details.manifest-details[open] { border-left: 4px solid #0d6efd; }
summary.manifest-summary { padding: 0.6rem 0.75rem; cursor: pointer; font-weight: 600; font-size: 0.95rem; background: #f9f7f4; list-style: none; }
summary.manifest-summary::-webkit-details-marker { display: none; }
summary.manifest-summary::before { content: \"▶ \"; font-size: 0.7rem; color: #666; }
details.manifest-details[open] summary.manifest-summary::before { content: \"▼ \"; }
.manifest-inner { padding: 0.75rem 1rem; border-top: 1px solid #eee; }
.manifest-inner h4 { font-size: 0.95rem; margin: 0.75rem 0 0.4rem; color: #444; }
.manifest-inner h4:first-child { margin-top: 0; }
.manifest-inner h5 { font-size: 0.9rem; margin: 0.5rem 0 0.25rem; }
.status-table { border-collapse: collapse; width: 100%; font-size: 0.9rem; margin: 0.35rem 0; }
.status-table th { text-align: left; padding: 0.4rem 0.6rem; font-weight: 600; }
.status-table td { padding: 0.4rem 0.6rem; }
.status-table .status-success { background: #d4edda; border-left: 3px solid #28a745; }
.status-table .status-informational { background: #fff3cd; border-left: 3px solid #ffc107; }
.status-table .status-failure { background: #f8d7da; border-left: 3px solid #dc3545; }
.status-emoji { font-style: normal; }
.warnings-list { margin: 0.35rem 0; }
.warnings-list li { margin: 0.25rem 0; }
.row-emoji { margin-right: 0.15rem; font-style: normal; }
";

// ---------------------------------------------------------------------------
// Profile evaluation details
// ---------------------------------------------------------------------------

pub open spec fn meta_row_html(meta: JsonData, key: Seq<char>) -> Seq<char> {
    match meta.get_str(key) {
        Some(v) => "<tr><th>"@ + escape_html(key) + "</th><td>"@ + escape_html(v) + "</td></tr>"@,
        None => Seq::empty(),
    }
}

pub open spec fn metadata_html(e: JsonData) -> Seq<char> {
    match e.get("profile_metadata"@) {
        Some(meta) => "<h3>ℹ️ Profile metadata</h3><table class=\"info-table\"><tbody>"@ + meta_row_html(meta, "name"@)
            + meta_row_html(meta, "issuer"@) + meta_row_html(meta, "date"@) + meta_row_html(meta, "version"@)
            + meta_row_html(meta, "language"@) + "</tbody></table>"@,
        None => Seq::empty(),
    }
}

/// The value cell of a statement row: a badge for booleans, the escaped text otherwise, a dash when absent.
pub open spec fn value_cell_html(v: Option<JsonData>) -> Seq<char> {
    match v {
        Some(JsonData::Bool(b)) => "<span class=\"row-emoji\" aria-hidden=\"true\">"@ + (if b { "✅"@ } else { "❌"@ })
            + "</span> <span class=\"badge badge-"@ + (if b { "pass"@ } else { "fail"@ }) + "\">"@ + (if b {
            "true"@
        } else {
            "false"@
        }) + "</span>"@,
        Some(x) => escape_html(value_text(x)),
        None => "—"@,
    }
}

pub open spec fn item_html(item: JsonData) -> Seq<char> {
    if is_title_item(item) {
        match item.get_str("report_text"@) {
            Some(t) => "<tr><td colspan=\"2\">"@ + escape_html(t) + "</td></tr>"@,
            None => Seq::empty(),
        }
    } else {
        match item.get_str("report_text"@) {
            Some(rt) => "<tr><th>"@ + escape_html(item_id(item)) + "</th><td>"@ + value_cell_html(item.get("value"@))
                + " — "@ + escape_html(rt) + "</td></tr>"@,
            None => Seq::empty(),
        }
    }
}

pub open spec fn item_html_fn() -> spec_fn(JsonData) -> Seq<char> {
    |item: JsonData| item_html(item)
}

pub open spec fn section_title_html(items: Seq<JsonData>) -> Seq<char> {
    match section_title(items) {
        Some(t) => "<h3>"@ + section_emoji(t) + escape_html(t) + "</h3>"@,
        None => Seq::empty(),
    }
}

pub open spec fn section_html(section: JsonData) -> Seq<char> {
    match section.as_array() {
        Some(items) => section_title_html(items) + "<table class=\"info-table\"><tbody>"@ + concat_map(
            items,
            item_html_fn(),
        ) + "</tbody></table>"@,
        None => Seq::empty(),
    }
}

pub open spec fn section_html_fn() -> spec_fn(JsonData) -> Seq<char> {
    |section: JsonData| section_html(section)
}

pub open spec fn statements_html(e: JsonData) -> Seq<char> {
    match e.get("statements"@) {
        Some(st) => match st.as_array() {
            Some(sections) => concat_map(sections, section_html_fn()),
            None => Seq::empty(),
        },
        None => Seq::empty(),
    }
}

/// HTML for the metadata and statements of a profile evaluation.
pub open spec fn profile_details_html(e: JsonData) -> Seq<char> {
    metadata_html(e) + statements_html(e)
}

fn meta_row(meta: &JsonValue, key: &str) -> (r: String)
    ensures
        r@ == meta_row_html(meta.data(), key@),
{
    match get_str(meta, key) {
        Some(v) => {
            let mut out = to_owned_string("<tr><th>");
            let k = html_escape(key);
            push_str(&mut out, k.as_str());
            push_str(&mut out, "</th><td>");
            let e = html_escape(v);
            push_str(&mut out, e.as_str());
            push_str(&mut out, "</td></tr>");
            out
        },
        None => String::new(),
    }
}

fn metadata_string(e: &JsonValue) -> (r: String)
    ensures
        r@ == metadata_html(e.data()),
{
    match e.get("profile_metadata") {
        Some(meta) => {
            let mut out = to_owned_string("<h3>ℹ️ Profile metadata</h3><table class=\"info-table\"><tbody>");
            let l = meta_row(meta, "name");
            push_str(&mut out, l.as_str());
            let l = meta_row(meta, "issuer");
            push_str(&mut out, l.as_str());
            let l = meta_row(meta, "date");
            push_str(&mut out, l.as_str());
            let l = meta_row(meta, "version");
            push_str(&mut out, l.as_str());
            let l = meta_row(meta, "language");
            push_str(&mut out, l.as_str());
            push_str(&mut out, "</tbody></table>");
            out
        },
        None => String::new(),
    }
}

fn value_cell(v: Option<&JsonValue>) -> (r: String)
    ensures
        r@ == value_cell_html(opt_data(v)),
{
    match v {
        Some(JsonValue::Bool(b)) => {
            let mut out = to_owned_string("<span class=\"row-emoji\" aria-hidden=\"true\">");
            if *b {
                push_str(&mut out, "✅");
            } else {
                push_str(&mut out, "❌");
            }
            push_str(&mut out, "</span> <span class=\"badge badge-");
            if *b {
                push_str(&mut out, "pass");
            } else {
                push_str(&mut out, "fail");
            }
            push_str(&mut out, "\">");
            if *b {
                push_str(&mut out, "true");
            } else {
                push_str(&mut out, "false");
            }
            push_str(&mut out, "</span>");
            out
        },
        Some(x) => {
            let t = value_string(x);
            html_escape(t.as_str())
        },
        None => to_owned_string("—"),
    }
}

fn item_string(item: &JsonValue) -> (r: String)
    ensures
        r@ == item_html(item.data()),
{
    if item.get("title").is_some() && item.get("report_text").is_some() && item.get("value").is_none() {
        match get_str(item, "report_text") {
            Some(t) => {
                let mut out = to_owned_string("<tr><td colspan=\"2\">");
                let e = html_escape(t);
                push_str(&mut out, e.as_str());
                push_str(&mut out, "</td></tr>");
                out
            },
            None => String::new(),
        }
    } else {
        match get_str(item, "report_text") {
            Some(rt) => {
                let id = match get_str(item, "id") {
                    Some(i) => i,
                    None => "",
                };
                proof {
                    reveal_strlit("");
                }
                let mut out = to_owned_string("<tr><th>");
                let e = html_escape(id);
                push_str(&mut out, e.as_str());
                push_str(&mut out, "</th><td>");
                let c = value_cell(item.get("value"));
                push_str(&mut out, c.as_str());
                push_str(&mut out, " — ");
                let e = html_escape(rt);
                push_str(&mut out, e.as_str());
                push_str(&mut out, "</td></tr>");
                out
            },
            None => String::new(),
        }
    }
}

fn section_title_string(items: &Vec<JsonValue>) -> (r: String)
    ensures
        r@ == section_title_html(datas(items@)),
{
    assert(datas(items@).skip(0) =~= datas(items@));
    let title = match first_titled_from(items, 0) {
        Some(item) => get_str(item, "title"),
        None => None,
    };
    match title {
        Some(t) => {
            let mut out = to_owned_string("<h3>");
            push_str(&mut out, profile_section_emoji(t));
            let e = html_escape(t);
            push_str(&mut out, e.as_str());
            push_str(&mut out, "</h3>");
            out
        },
        None => String::new(),
    }
}

fn section_string(section: &JsonValue) -> (r: String)
    ensures
        r@ == section_html(section.data()),
{
    proof {
        lemma_array_data(section);
    }
    match section.as_array() {
        Some(items) => {
            let ghost ds = datas(items@);
            let mut out = section_title_string(items);
            push_str(&mut out, "<table class=\"info-table\"><tbody>");
            let mut body = String::new();
            let mut i: usize = 0;
            while i < items.len()
                invariant
                    i <= items@.len(),
                    ds == datas(items@),
                    body@ == concat_map(ds.take(i as int), item_html_fn()),
                decreases items@.len() - i,
            {
                proof {
                    lemma_concat_map_step(ds, item_html_fn(), i as int);
                }
                let t = item_string(&items[i]);
                push_str(&mut body, t.as_str());
                i = i + 1;
            }
            proof {
                lemma_take_all(ds);
            }
            push_str(&mut out, body.as_str());
            push_str(&mut out, "</tbody></table>");
            out
        },
        None => String::new(),
    }
}

fn statements_string(e: &JsonValue) -> (r: String)
    ensures
        r@ == statements_html(e.data()),
{
    match e.get("statements") {
        Some(st) => {
            proof {
                lemma_array_data(st);
            }
            match st.as_array() {
                Some(sections) => {
                    let ghost ds = datas(sections@);
                    let mut out = String::new();
                    let mut i: usize = 0;
                    while i < sections.len()
                        invariant
                            i <= sections@.len(),
                            ds == datas(sections@),
                            out@ == concat_map(ds.take(i as int), section_html_fn()),
                        decreases sections@.len() - i,
                    {
                        proof {
                            lemma_concat_map_step(ds, section_html_fn(), i as int);
                        }
                        let t = section_string(&sections[i]);
                        push_str(&mut out, t.as_str());
                        i = i + 1;
                    }
                    proof {
                        lemma_take_all(ds);
                    }
                    out
                },
                None => String::new(),
            }
        },
        None => String::new(),
    }
}

/// Renders profile_metadata and statements from profile evaluation JSON as HTML.
pub fn render_profile_details_html(eval: &JsonValue) -> (r: String)
    ensures
        r@ == profile_details_html(eval.data()),
{
    let mut out = metadata_string(eval);
    let s = statements_string(eval);
    push_str(&mut out, s.as_str());
    out
}

// ---------------------------------------------------------------------------
// Report
// ---------------------------------------------------------------------------

/// A list item for each string, escaped.
pub open spec fn li_fn() -> spec_fn(String) -> Seq<char> {
    |s: String| "<li>"@ + escape_html(s@) + "</li>"@
}

pub open spec fn warning_li_fn() -> spec_fn(String) -> Seq<char> {
    |s: String| "<li><span class=\"status-emoji\" aria-hidden=\"true\">&#x26A0;</span> "@ + escape_html(s@) + "</li>"@
}

pub open spec fn crjson_html(c: CrJsonValidationReport) -> Seq<char> {
    let v = if c.valid { "pass"@ } else { "fail"@ };
    "<p class=\"report-asset\"><strong>Asset:</strong> "@ + escape_html(c.input.resolved_path@)
        + "</p><p class=\"report-format\"><strong>Format:</strong> crJSON</p><h2>Validation</h2><p><span class=\"badge badge-"@
        + v + "\">"@ + v + "</span></p>"@ + (if c.messages@.len() == 0 {
        Seq::empty()
    } else {
        "<ul>"@ + concat_map(c.messages@, li_fn()) + "</ul>"@
    })
}

pub open spec fn header_html(a: AssetReport, profile_only: bool) -> Seq<char> {
    if profile_only {
        "<p class=\"report-asset\"><strong>📁 Asset:</strong> "@ + escape_html(a.input.resolved_path@)
            + "</p><p class=\"report-format\"><strong>📄 Format:</strong> "@ + escape_html(a.input.detected_format@)
            + "</p>"@
    } else {
        "<p class=\"report-asset\"><strong>Asset:</strong> "@ + escape_html(a.input.resolved_path@)
            + "</p><p class=\"report-format\"><strong>Format:</strong> "@ + escape_html(a.input.detected_format@)
            + "</p>"@
    }
}

pub open spec fn profile_block_html(a: AssetReport) -> Seq<char> {
    match a.profile_path {
        Some(pp) => {
            let comp = compliance_text(evaluation_of(a));
            "<h2>📝 Profile</h2><table class=\"info-table\"><tbody><tr><th>Profile</th><td>"@ + escape_html(pp@)
                + "</td></tr><tr><th>Compliance</th><td><span class=\"badge badge-"@ + comp + "\">"@ + escape_html(
                compliance_label(comp),
            ) + "</span></td></tr></tbody></table>"@ + match a.profile_evaluation {
                Some(e) => profile_details_html(e.data()),
                None => Seq::empty(),
            }
        },
        None => Seq::empty(),
    }
}

pub open spec fn group_row_html(label: Seq<char>, statuses: Seq<StatusRecord>) -> Seq<char> {
    if statuses.len() == 0 {
        Seq::empty()
    } else {
        "<tr><th>"@ + label + "</th><td>"@ + escape_html(status_list_text(statuses)) + "</td></tr>"@
    }
}

pub open spec fn notes_row_html(notes: Seq<String>) -> Seq<char> {
    if notes.len() == 0 {
        Seq::empty()
    } else {
        "<tr><th>Notes</th><td><ul style=\"margin:0;padding-left:1.25rem;\">"@ + concat_map(notes, li_fn())
            + "</ul></td></tr>"@
    }
}

pub open spec fn trust_block_html(a: AssetReport) -> Seq<char> {
    let state = state_name(a.validation_state);
    "<h2>Validation &amp; Trust</h2><p class=\"trust-status\"><strong>Trust Status:</strong> <span class=\"badge badge-"@
        + state + "\">"@ + state + "</span></p><table class=\"info-table\"><tbody>"@ + notes_row_html(a.trust.notes@)
        + group_row_html("Claim signature"@, a.statuses@.filter(claim_pred()))
        + group_row_html("Signing certificate"@, a.statuses@.filter(signing_pred()))
        + group_row_html("Timestamp"@, a.statuses@.filter(timestamp_pred())) + "</tbody></table>"@
}

pub open spec fn profile_summary_html(a: AssetReport) -> Seq<char> {
    match a.profile_path {
        Some(pp) => {
            let comp = compliance_text(evaluation_of(a));
            "<h2>Profile</h2><table class=\"info-table\"><tbody><tr><th>Path</th><td>"@ + escape_html(pp@)
                + "</td></tr><tr><th>Compliance</th><td><span class=\"badge badge-"@ + comp + "\">"@ + comp
                + "</span></td></tr></tbody></table>"@
        },
        None => Seq::empty(),
    }
}

pub open spec fn opt_row_html(o: Option<String>, label: Seq<char>) -> Seq<char> {
    match o {
        Some(v) => "<tr><th>"@ + label + "</th><td>"@ + escape_html(v@) + "</td></tr>"@,
        None => Seq::empty(),
    }
}

pub open spec fn claim_html(m: ManifestRecord) -> Seq<char> {
    "<h4>Claim</h4><table class=\"info-table\"><tbody>"@ + opt_row_html(m.claim_version, "Claim version"@)
        + opt_row_html(m.claim_generator, "Claim generator"@) + (if m.claim_version is None && m.claim_generator is None {
        "<tr><th>Claim</th><td><em>(none)</em></td></tr>"@
    } else {
        Seq::empty()
    }) + "</tbody></table>"@
}

pub open spec fn signature_html(m: ManifestRecord) -> Seq<char> {
    "<h4>Signature Info</h4><table class=\"info-table\"><tbody>"@ + match m.signature {
        Some(sig) => opt_row_html(sig.common_name, "Signing (CN)"@) + opt_row_html(sig.issuer, "Issuer"@) + opt_row_html(
            sig.time,
            "Time"@,
        ),
        None => "<tr><th>Signature</th><td><em>(none)</em></td></tr>"@,
    } + "</tbody></table>"@
}

pub open spec fn assertion_row_fn() -> spec_fn(AssertionRecord) -> Seq<char> {
    |a: AssertionRecord| "<tr><td>"@ + escape_html(a.label@) + "</td></tr>"@
}

pub open spec fn assertions_html(m: ManifestRecord) -> Seq<char> {
    "<h4>Assertions</h4><table class=\"info-table\"><thead><tr><th>Assertion</th></tr></thead><tbody>"@ + concat_map(
        m.assertions@,
        assertion_row_fn(),
    ) + (if m.assertions@.len() == 0 {
        "<tr><td><em>(none)</em></td></tr>"@
    } else {
        Seq::empty()
    }) + "</tbody></table>"@
}

/// Label and row class of a status kind; any kind other than success and informational is a failure.
pub open spec fn status_kind_label(kind: Seq<char>) -> Seq<char> {
    if kind == "success"@ {
        "&#x2714; Success"@
    } else if kind == "informational"@ {
        "&#x2139; Informational"@
    } else {
        "&#x2718; Failure"@
    }
}

pub open spec fn status_kind_class(kind: Seq<char>) -> Seq<char> {
    if kind == "success"@ {
        "status-success"@
    } else if kind == "informational"@ {
        "status-informational"@
    } else {
        "status-failure"@
    }
}

pub open spec fn status_row_html(s: StatusRecord) -> Seq<char> {
    "<tr class=\""@ + status_kind_class(s.kind@) + "\"><td class=\"status-emoji\">"@ + status_kind_label(s.kind@)
        + "</td><td><code>"@ + escape_html(s.code@) + "</code></td><td>"@ + match s.explanation {
        Some(e) => escape_html(e@),
        None => Seq::empty(),
    } + "</td></tr>"@
}

/// A status row opens with its kind: a success status as Success, an informational status as
/// Informational, and any other status as Failure.
pub proof fn lemma_status_row_kind(s: StatusRecord)
    ensures
        s.kind@ == "success"@ ==> seq_starts_with(status_row_html(s), "<tr class=\"status-success\"><td class=\"status-emoji\">&#x2714; Success</td>"@),
        s.kind@ == "informational"@ ==> seq_starts_with(status_row_html(s), "<tr class=\"status-informational\"><td class=\"status-emoji\">&#x2139; Informational</td>"@),
        (s.kind@ != "success"@ && s.kind@ != "informational"@) ==> seq_starts_with(status_row_html(s), "<tr class=\"status-failure\"><td class=\"status-emoji\">&#x2718; Failure</td>"@),
{
    reveal_strlit("success");
    reveal_strlit("informational");
    reveal_strlit("<tr class=\"");
    reveal_strlit("\"><td class=\"status-emoji\">");
    reveal_strlit("</td><td><code>");
    reveal_strlit("status-success");
    reveal_strlit("status-informational");
    reveal_strlit("status-failure");
    reveal_strlit("&#x2714; Success");
    reveal_strlit("&#x2139; Informational");
    reveal_strlit("&#x2718; Failure");
    reveal_strlit("<tr class=\"status-success\"><td class=\"status-emoji\">&#x2714; Success</td>");
    reveal_strlit("<tr class=\"status-informational\"><td class=\"status-emoji\">&#x2139; Informational</td>");
    reveal_strlit("<tr class=\"status-failure\"><td class=\"status-emoji\">&#x2718; Failure</td>");
    let row = status_row_html(s);
    let head = "<tr class=\""@ + status_kind_class(s.kind@) + "\"><td class=\"status-emoji\">"@ + status_kind_label(
        s.kind@,
    ) + "</td><td><code>"@;
    let tail = escape_html(s.code@) + "</code></td><td>"@ + match s.explanation {
        Some(e) => escape_html(e@),
        None => Seq::empty(),
    } + "</td></tr>"@;
    assert(row =~= head + tail);
    if s.kind@ == "success"@ {
        assert("success"@.len() != "informational"@.len());
        assert(row.take("<tr class=\"status-success\"><td class=\"status-emoji\">&#x2714; Success</td>"@.len() as int) =~= "<tr class=\"status-success\"><td class=\"status-emoji\">&#x2714; Success</td>"@);
    } else if s.kind@ == "informational"@ {
        assert(status_kind_class(s.kind@) == "status-informational"@);
        assert(status_kind_label(s.kind@) == "&#x2139; Informational"@);
        let p = "<tr class=\""@ + "status-informational"@ + "\"><td class=\"status-emoji\">"@
            + "&#x2139; Informational"@ + "</td>"@;
        reveal_strlit("</td>");
        assert(p =~= "<tr class=\"status-informational\"><td class=\"status-emoji\">&#x2139; Informational</td>"@);
        assert(row.take("<tr class=\"status-informational\"><td class=\"status-emoji\">&#x2139; Informational</td>"@.len() as int) =~= "<tr class=\"status-informational\"><td class=\"status-emoji\">&#x2139; Informational</td>"@);
        assert(seq_starts_with(row, "<tr class=\"status-informational\"><td class=\"status-emoji\">&#x2139; Informational</td>"@));
    } else {
        assert(row.take("<tr class=\"status-failure\"><td class=\"status-emoji\">&#x2718; Failure</td>"@.len() as int) =~= "<tr class=\"status-failure\"><td class=\"status-emoji\">&#x2718; Failure</td>"@);
    }
}

pub open spec fn status_row_fn() -> spec_fn(StatusRecord) -> Seq<char> {
    |s: StatusRecord| status_row_html(s)
}

pub open spec fn validation_html(m: ManifestRecord) -> Seq<char> {
    if m.statuses@.len() == 0 {
        Seq::empty()
    } else {
        "<h4>Validation</h4><table class=\"status-table\"><thead><tr><th>Type</th><th>Code</th><th>Details</th></tr></thead><tbody>"@
            + concat_map(m.statuses@, status_row_fn()) + "</tbody></table>"@
    }
}

pub open spec fn manifest_html(i: int, m: ManifestRecord) -> Seq<char> {
    "<details class=\"manifest-details\"><summary class=\"manifest-summary\">Manifest "@ + decimal((i + 1) as nat)
        + ": "@ + escape_html(manifest_heading(m)) + "</summary><div class=\"manifest-inner\">"@ + claim_html(m)
        + signature_html(m) + assertions_html(m) + validation_html(m) + "</div></details>"@
}

pub open spec fn manifest_html_fn() -> spec_fn(int, ManifestRecord) -> Seq<char> {
    |i: int, m: ManifestRecord| manifest_html(i, m)
}

pub open spec fn manifests_html(a: AssetReport) -> Seq<char> {
    if a.manifests@.len() == 0 {
        Seq::empty()
    } else {
        "<h2>Manifests</h2>"@ + concat_indexed(a.manifests@, manifest_html_fn())
    }
}

pub open spec fn warnings_html(a: AssetReport) -> Seq<char> {
    if a.warnings@.len() == 0 {
        Seq::empty()
    } else {
        "<h2>Warnings</h2><ul class=\"warnings-list\">"@ + concat_map(a.warnings@, warning_li_fn()) + "</ul>"@
    }
}

pub open spec fn asset_html(a: AssetReport, profile_only: bool) -> Seq<char> {
    header_html(a, profile_only) + (if profile_only {
        profile_block_html(a)
    } else {
        trust_block_html(a) + profile_summary_html(a) + manifests_html(a)
    }) + warnings_html(a)
}

pub open spec fn result_html(item: ReportItem, profile_only: bool) -> Seq<char> {
    match item {
        ReportItem::Asset(a) => asset_html(a, profile_only),
        ReportItem::CrJsonValidation(c) => crjson_html(c),
    }
}

pub open spec fn generation_info_html(r: CrJsonReport) -> Seq<char> {
    "<h2>Report Generation Info</h2><table class=\"info-table\"><tbody><tr><th>Tool</th><td>"@ + escape_html(r.tool.name@)
        + " "@ + escape_html(r.tool.version@) + "</td></tr><tr><th>Generated</th><td>"@ + escape_html(r.generated_at@)
        + "</td></tr></tbody></table>"@
}

pub open spec fn report_body_html(r: CrJsonReport, profile_only: bool) -> Seq<char> {
    if r.results@.len() == 0 {
        Seq::empty()
    } else {
        result_html(r.results@[0], profile_only)
    }
}

/// The HTML document: styles, title, the first result and the generation info.
pub open spec fn report_html(r: CrJsonReport, profile_only: bool) -> Seq<char> {
    "<!doctype html><html><head><meta charset=\"utf-8\"><title>C2PA Conformance Report</title><style>"@ + REPORT_STYLES@
        + "</style></head><body><h1>"@ + (if profile_only {
        "📝 C2PA Conformance Report"@
    } else {
        "C2PA Conformance Report"@
    }) + "</h1><div class=\"report-body\">"@ + report_body_html(r, profile_only) + generation_info_html(r)
        + "</div></body></html>"@
}

fn list_string(items: &Vec<String>, warning: bool) -> (r: String)
    ensures
        r@ == concat_map(items@, if warning { warning_li_fn() } else { li_fn() }),
{
    let ghost f = if warning { warning_li_fn() } else { li_fn() };
    let mut out = String::new();
    let mut i: usize = 0;
    while i < items.len()
        invariant
            i <= items@.len(),
            f == (if warning { warning_li_fn() } else { li_fn() }),
            out@ == concat_map(items@.take(i as int), f),
        decreases items@.len() - i,
    {
        proof {
            lemma_concat_map_step(items@, f, i as int);
        }
        let mut line = if warning {
            to_owned_string("<li><span class=\"status-emoji\" aria-hidden=\"true\">&#x26A0;</span> ")
        } else {
            to_owned_string("<li>")
        };
        let e = html_escape(items[i].as_str());
        push_str(&mut line, e.as_str());
        push_str(&mut line, "</li>");
        push_str(&mut out, line.as_str());
        i = i + 1;
    }
    proof {
        lemma_take_all(items@);
    }
    out
}

fn render_single_crjson_html(c: &CrJsonValidationReport) -> (r: String)
    ensures
        r@ == crjson_html(*c),
{
    let v = if c.valid { "pass" } else { "fail" };
    let mut out = to_owned_string("<p class=\"report-asset\"><strong>Asset:</strong> ");
    let e = html_escape(c.input.resolved_path.as_str());
    push_str(&mut out, e.as_str());
    push_str(
        &mut out,
        "</p><p class=\"report-format\"><strong>Format:</strong> crJSON</p><h2>Validation</h2><p><span class=\"badge badge-",
    );
    push_str(&mut out, v);
    push_str(&mut out, "\">");
    push_str(&mut out, v);
    push_str(&mut out, "</span></p>");
    if c.messages.len() == 0 {
        push_str(&mut out, "");
        proof {
            reveal_strlit("");
        }
    } else {
        let mut m = to_owned_string("<ul>");
        let l = list_string(&c.messages, false);
        push_str(&mut m, l.as_str());
        push_str(&mut m, "</ul>");
        push_str(&mut out, m.as_str());
    }
    out
}

fn header_string(a: &AssetReport, profile_only: bool) -> (r: String)
    ensures
        r@ == header_html(*a, profile_only),
{
    let mut out = if profile_only {
        to_owned_string("<p class=\"report-asset\"><strong>📁 Asset:</strong> ")
    } else {
        to_owned_string("<p class=\"report-asset\"><strong>Asset:</strong> ")
    };
    let e = html_escape(a.input.resolved_path.as_str());
    push_str(&mut out, e.as_str());
    if profile_only {
        push_str(&mut out, "</p><p class=\"report-format\"><strong>📄 Format:</strong> ");
    } else {
        push_str(&mut out, "</p><p class=\"report-format\"><strong>Format:</strong> ");
    }
    let e = html_escape(a.input.detected_format.as_str());
    push_str(&mut out, e.as_str());
    push_str(&mut out, "</p>");
    out
}

fn profile_block_string(a: &AssetReport) -> (r: String)
    ensures
        r@ == profile_block_html(*a),
{
    match &a.profile_path {
        Some(pp) => {
            let comp = render_profile_compliance(evaluation_ref(a));
            let mut out = to_owned_string(
                "<h2>📝 Profile</h2><table class=\"info-table\"><tbody><tr><th>Profile</th><td>",
            );
            let e = html_escape(pp.as_str());
            push_str(&mut out, e.as_str());
            push_str(&mut out, "</td></tr><tr><th>Compliance</th><td><span class=\"badge badge-");
            push_str(&mut out, comp);
            push_str(&mut out, "\">");
            let l = compliance_label_emoji(comp);
            let e = html_escape(l.as_str());
            push_str(&mut out, e.as_str());
            push_str(&mut out, "</span></td></tr></tbody></table>");
            match &a.profile_evaluation {
                Some(ev) => {
                    let d = render_profile_details_html(ev);
                    push_str(&mut out, d.as_str());
                },
                None => {
                    push_str(&mut out, "");
                    proof {
                        reveal_strlit("");
                    }
                },
            }
            out
        },
        None => String::new(),
    }
}

fn group_row(label: &str, statuses: Vec<&StatusRecord>) -> (r: String)
    ensures
        r@ == group_row_html(label@, deref_records(statuses@)),
{
    if statuses.len() == 0 {
        String::new()
    } else {
        let mut out = to_owned_string("<tr><th>");
        push_str(&mut out, label);
        push_str(&mut out, "</th><td>");
        let l = format_status_list(statuses);
        let e = html_escape(l.as_str());
        push_str(&mut out, e.as_str());
        push_str(&mut out, "</td></tr>");
        out
    }
}

fn notes_row(notes: &Vec<String>) -> (r: String)
    ensures
        r@ == notes_row_html(notes@),
{
    if notes.len() == 0 {
        String::new()
    } else {
        let mut out = to_owned_string("<tr><th>Notes</th><td><ul style=\"margin:0;padding-left:1.25rem;\">");
        let l = list_string(notes, false);
        push_str(&mut out, l.as_str());
        push_str(&mut out, "</ul></td></tr>");
        out
    }
}

fn trust_block_string(a: &AssetReport) -> (r: String)
    ensures
        r@ == trust_block_html(*a),
{
    let state = render_state(a.validation_state);
    let mut out = to_owned_string(
        "<h2>Validation &amp; Trust</h2><p class=\"trust-status\"><strong>Trust Status:</strong> <span class=\"badge badge-",
    );
    push_str(&mut out, state);
    push_str(&mut out, "\">");
    push_str(&mut out, state);
    push_str(&mut out, "</span></p><table class=\"info-table\"><tbody>");
    let n = notes_row(&a.trust.notes);
    push_str(&mut out, n.as_str());
    let (claim_sig, signing_cert, timestamp) = partition_validation_statuses(a.statuses.as_slice());
    let g = group_row("Claim signature", claim_sig);
    push_str(&mut out, g.as_str());
    let g = group_row("Signing certificate", signing_cert);
    push_str(&mut out, g.as_str());
    let g = group_row("Timestamp", timestamp);
    push_str(&mut out, g.as_str());
    push_str(&mut out, "</tbody></table>");
    out
}

fn profile_summary_string(a: &AssetReport) -> (r: String)
    ensures
        r@ == profile_summary_html(*a),
{
    match &a.profile_path {
        Some(pp) => {
            let comp = render_profile_compliance(evaluation_ref(a));
            let mut out = to_owned_string("<h2>Profile</h2><table class=\"info-table\"><tbody><tr><th>Path</th><td>");
            let e = html_escape(pp.as_str());
            push_str(&mut out, e.as_str());
            push_str(&mut out, "</td></tr><tr><th>Compliance</th><td><span class=\"badge badge-");
            push_str(&mut out, comp);
            push_str(&mut out, "\">");
            push_str(&mut out, comp);
            push_str(&mut out, "</span></td></tr></tbody></table>");
            out
        },
        None => String::new(),
    }
}

fn opt_row(o: &Option<String>, label: &str) -> (r: String)
    ensures
        r@ == opt_row_html(*o, label@),
{
    match o {
        Some(v) => {
            let mut out = to_owned_string("<tr><th>");
            push_str(&mut out, label);
            push_str(&mut out, "</th><td>");
            let e = html_escape(v.as_str());
            push_str(&mut out, e.as_str());
            push_str(&mut out, "</td></tr>");
            out
        },
        None => String::new(),
    }
}

fn claim_string(m: &ManifestRecord) -> (r: String)
    ensures
        r@ == claim_html(*m),
{
    let mut out = to_owned_string("<h4>Claim</h4><table class=\"info-table\"><tbody>");
    let l = opt_row(&m.claim_version, "Claim version");
    push_str(&mut out, l.as_str());
    let l = opt_row(&m.claim_generator, "Claim generator");
    push_str(&mut out, l.as_str());
    if m.claim_version.is_none() && m.claim_generator.is_none() {
        push_str(&mut out, "<tr><th>Claim</th><td><em>(none)</em></td></tr>");
    } else {
        push_str(&mut out, "");
        proof {
            reveal_strlit("");
        }
    }
    push_str(&mut out, "</tbody></table>");
    out
}

fn signature_string(m: &ManifestRecord) -> (r: String)
    ensures
        r@ == signature_html(*m),
{
    let mut out = to_owned_string("<h4>Signature Info</h4><table class=\"info-table\"><tbody>");
    match &m.signature {
        Some(sig) => {
            let mut rows = opt_row(&sig.common_name, "Signing (CN)");
            let l = opt_row(&sig.issuer, "Issuer");
            push_str(&mut rows, l.as_str());
            let l = opt_row(&sig.time, "Time");
            push_str(&mut rows, l.as_str());
            push_str(&mut out, rows.as_str());
        },
        None => {
            push_str(&mut out, "<tr><th>Signature</th><td><em>(none)</em></td></tr>");
        },
    }
    push_str(&mut out, "</tbody></table>");
    out
}

fn assertions_string(m: &ManifestRecord) -> (r: String)
    ensures
        r@ == assertions_html(*m),
{
    let mut out = to_owned_string(
        "<h4>Assertions</h4><table class=\"info-table\"><thead><tr><th>Assertion</th></tr></thead><tbody>",
    );
    let mut body = String::new();
    let mut i: usize = 0;
    while i < m.assertions.len()
        invariant
            i <= m.assertions@.len(),
            body@ == concat_map(m.assertions@.take(i as int), assertion_row_fn()),
        decreases m.assertions@.len() - i,
    {
        proof {
            lemma_concat_map_step(m.assertions@, assertion_row_fn(), i as int);
        }
        let mut row = to_owned_string("<tr><td>");
        let e = html_escape(m.assertions[i].label.as_str());
        push_str(&mut row, e.as_str());
        push_str(&mut row, "</td></tr>");
        push_str(&mut body, row.as_str());
        i = i + 1;
    }
    proof {
        lemma_take_all(m.assertions@);
    }
    push_str(&mut out, body.as_str());
    if m.assertions.len() == 0 {
        push_str(&mut out, "<tr><td><em>(none)</em></td></tr>");
    } else {
        push_str(&mut out, "");
        proof {
            reveal_strlit("");
        }
    }
    push_str(&mut out, "</tbody></table>");
    out
}

fn status_row(s: &StatusRecord) -> (r: String)
    ensures
        r@ == status_row_html(*s),
{
    let kind = s.kind.as_str();
    let (label, row_class) = if str_eq(kind, "success") {
        ("&#x2714; Success", "status-success")
    } else if str_eq(kind, "informational") {
        ("&#x2139; Informational", "status-informational")
    } else {
        ("&#x2718; Failure", "status-failure")
    };
    let explanation = match &s.explanation {
        Some(e) => html_escape(e.as_str()),
        None => String::new(),
    };
    let mut out = to_owned_string("<tr class=\"");
    push_str(&mut out, row_class);
    push_str(&mut out, "\"><td class=\"status-emoji\">");
    push_str(&mut out, label);
    push_str(&mut out, "</td><td><code>");
    let e = html_escape(s.code.as_str());
    push_str(&mut out, e.as_str());
    push_str(&mut out, "</code></td><td>");
    push_str(&mut out, explanation.as_str());
    push_str(&mut out, "</td></tr>");
    out
}

fn validation_string(m: &ManifestRecord) -> (r: String)
    ensures
        r@ == validation_html(*m),
{
    if m.statuses.len() == 0 {
        String::new()
    } else {
        let mut out = to_owned_string(
            "<h4>Validation</h4><table class=\"status-table\"><thead><tr><th>Type</th><th>Code</th><th>Details</th></tr></thead><tbody>",
        );
        let mut body = String::new();
        let mut i: usize = 0;
        while i < m.statuses.len()
            invariant
                i <= m.statuses@.len(),
                body@ == concat_map(m.statuses@.take(i as int), status_row_fn()),
            decreases m.statuses@.len() - i,
        {
            proof {
                lemma_concat_map_step(m.statuses@, status_row_fn(), i as int);
            }
            let row = status_row(&m.statuses[i]);
            push_str(&mut body, row.as_str());
            i = i + 1;
        }
        proof {
            lemma_take_all(m.statuses@);
        }
        push_str(&mut out, body.as_str());
        push_str(&mut out, "</tbody></table>");
        out
    }
}

fn manifest_string(i: usize, m: &ManifestRecord) -> (r: String)
    requires
        i < usize::MAX,
    ensures
        r@ == manifest_html(i as int, *m),
{
    let mut out = to_owned_string(
        "<details class=\"manifest-details\"><summary class=\"manifest-summary\">Manifest ",
    );
    let n = decimal_string(i + 1);
    push_str(&mut out, n.as_str());
    push_str(&mut out, ": ");
    let heading = match &m.title {
        Some(t) => t.as_str(),
        None => match &m.label {
            Some(l) => l.as_str(),
            None => "(unnamed)",
        },
    };
    let e = html_escape(heading);
    push_str(&mut out, e.as_str());
    push_str(&mut out, "</summary><div class=\"manifest-inner\">");
    let c = claim_string(m);
    push_str(&mut out, c.as_str());
    let c = signature_string(m);
    push_str(&mut out, c.as_str());
    let c = assertions_string(m);
    push_str(&mut out, c.as_str());
    let c = validation_string(m);
    push_str(&mut out, c.as_str());
    push_str(&mut out, "</div></details>");
    out
}

fn manifests_string(a: &AssetReport) -> (r: String)
    ensures
        r@ == manifests_html(*a),
{
    if a.manifests.len() == 0 {
        return String::new();
    }
    let mut body = String::new();
    let mut i: usize = 0;
    while i < a.manifests.len()
        invariant
            i <= a.manifests@.len(),
            body@ == concat_indexed(a.manifests@.take(i as int), manifest_html_fn()),
        decreases a.manifests@.len() - i,
    {
        proof {
            lemma_concat_indexed_step(a.manifests@, manifest_html_fn(), i as int);
        }
        let t = manifest_string(i, &a.manifests[i]);
        push_str(&mut body, t.as_str());
        i = i + 1;
    }
    proof {
        lemma_take_all(a.manifests@);
    }
    let mut out = to_owned_string("<h2>Manifests</h2>");
    push_str(&mut out, body.as_str());
    out
}

fn warnings_string(a: &AssetReport) -> (r: String)
    ensures
        r@ == warnings_html(*a),
{
    if a.warnings.len() == 0 {
        String::new()
    } else {
        let mut out = to_owned_string("<h2>Warnings</h2><ul class=\"warnings-list\">");
        let l = list_string(&a.warnings, true);
        push_str(&mut out, l.as_str());
        push_str(&mut out, "</ul>");
        out
    }
}

fn render_single_asset_html(a: &AssetReport, profile_only: bool) -> (r: String)
    ensures
        r@ == asset_html(*a, profile_only),
{
    let mut out = header_string(a, profile_only);
    let middle = if profile_only {
        profile_block_string(a)
    } else {
        let mut m = trust_block_string(a);
        let p = profile_summary_string(a);
        push_str(&mut m, p.as_str());
        let ms = manifests_string(a);
        push_str(&mut m, ms.as_str());
        m
    };
    push_str(&mut out, middle.as_str());
    let w = warnings_string(a);
    push_str(&mut out, w.as_str());
    out
}

impl CrJsonReport {
    /// Renders the report as a standalone HTML document.
    pub fn render_html(&self, profile_only: bool) -> (r: String)
        ensures
            r@ == report_html(*self, profile_only),
    {
        let mut info = to_owned_string(
            "<h2>Report Generation Info</h2><table class=\"info-table\"><tbody><tr><th>Tool</th><td>",
        );
        let e = html_escape(self.tool.name);
        push_str(&mut info, e.as_str());
        push_str(&mut info, " ");
        let e = html_escape(self.tool.version);
        push_str(&mut info, e.as_str());
        push_str(&mut info, "</td></tr><tr><th>Generated</th><td>");
        let e = html_escape(self.generated_at.as_str());
        push_str(&mut info, e.as_str());
        push_str(&mut info, "</td></tr></tbody></table>");
        let body = if self.results.len() == 0 {
            String::new()
        } else {
            match &self.results[0] {
                ReportItem::Asset(report) => render_single_asset_html(report, profile_only),
                ReportItem::CrJsonValidation(report) => render_single_crjson_html(report),
            }
        };
        let mut out = to_owned_string(
            "<!doctype html><html><head><meta charset=\"utf-8\"><title>C2PA Conformance Report</title><style>",
        );
        push_str(&mut out, REPORT_STYLES);
        push_str(&mut out, "</style></head><body><h1>");
        if profile_only {
            push_str(&mut out, "📝 C2PA Conformance Report");
        } else {
            push_str(&mut out, "C2PA Conformance Report");
        }
        push_str(&mut out, "</h1><div class=\"report-body\">");
        push_str(&mut out, body.as_str());
        push_str(&mut out, info.as_str());
        push_str(&mut out, "</div></body></html>");
        out
    }
}

} // verus!
