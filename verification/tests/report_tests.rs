use c2pa_validate::json::JsonValue;
use c2pa_validate::report::{
    compliance_emoji_md, compliance_label_emoji, format_input_type, format_status_list, html_escape,
    partition_validation_statuses, profile_section_emoji, render_state, CrJsonReport,
    CrJsonValidationReport, ExitStatus, InputDescriptor, InputType, ReportItem, SdkMetadata,
    StatusRecord, Summary, ToolMetadata, ValidationState,
};

fn sample_summary(total: usize, trusted: usize, valid: usize, invalid: usize, errors: usize) -> Summary {
    Summary { total, trusted, valid, invalid, errors, warnings: 0 }
}

fn sample_input_descriptor(path: &str, input_type: InputType) -> InputDescriptor {
    InputDescriptor {
        original: path.to_string(),
        resolved_path: path.to_string(),
        input_type,
        detected_format: "image/jpeg".to_string(),
    }
}

fn sample_tool() -> ToolMetadata {
    ToolMetadata {
        name: "test",
        version: "0.0.0",
        c2pa_sdk: SdkMetadata { name: "c2pa", version: "0.0.0", source: "test" },
    }
}

fn sample_report(summary: Summary, results: Vec<ReportItem>) -> CrJsonReport {
    CrJsonReport {
        schema: "crjson",
        schema_version: "0.1.0",
        tool: sample_tool(),
        generated_at: "0".to_string(),
        summary,
        results,
    }
}

#[test]
fn exit_code_failure_when_invalid_or_errors() {
    let report = sample_report(sample_summary(1, 0, 0, 1, 0), vec![]);
    assert_eq!(report.exit_code(), ExitStatus::Failure);
}

#[test]
fn exit_code_failure_when_errors() {
    let report = sample_report(sample_summary(1, 0, 0, 0, 1), vec![]);
    assert_eq!(report.exit_code(), ExitStatus::Failure);
}

#[test]
fn exit_code_success_when_trusted_or_valid_only() {
    let report = sample_report(sample_summary(1, 1, 0, 0, 0), vec![]);
    assert_eq!(report.exit_code(), ExitStatus::Success);
}

#[test]
fn render_markdown_includes_summary_and_section() {
    let report = sample_report(
        sample_summary(2, 1, 1, 0, 0),
        vec![ReportItem::CrJsonValidation(CrJsonValidationReport {
            input: sample_input_descriptor("/path/to/file.json", InputType::CrJson),
            valid: true,
            messages: vec!["ok".to_string()],
            rubric_results: Vec::new(),
        })],
    );
    let md = report.render_markdown(false);
    assert!(md.starts_with("# C2PA Conformance Report"));
    assert!(md.contains("## Validation"));
    assert!(md.contains("**Result:** `pass`"));
    assert!(md.contains("## Report Generation Info"));
}

#[test]
fn render_html_includes_doctype_and_escapes_content() {
    let report = sample_report(
        sample_summary(0, 0, 0, 0, 0),
        vec![ReportItem::CrJsonValidation(CrJsonValidationReport {
            input: sample_input_descriptor("/path/to/file&name.json", InputType::CrJson),
            valid: false,
            messages: vec![],
            rubric_results: Vec::new(),
        })],
    );
    let html = report.render_html(false);
    assert!(html.contains("<!doctype html>"));
    assert!(html.contains("<h1>C2PA Conformance Report</h1>"));
    assert!(html.contains("file&amp;name.json"), "ampersand should be escaped");
    assert!(html.contains("badge-fail"));
    assert!(html.contains("report-body"));
}

fn valid_crjson_report() -> CrJsonReport {
    sample_report(
        sample_summary(1, 0, 0, 0, 0),
        vec![ReportItem::CrJsonValidation(CrJsonValidationReport {
            input: sample_input_descriptor("/fixtures/valid_minimal.json", InputType::CrJson),
            valid: true,
            messages: vec!["crJSON structure is valid".to_string()],
            rubric_results: Vec::new(),
        })],
    )
}

#[test]
fn report_render_markdown_contains_expected() {
    let md = valid_crjson_report().render_markdown(false);
    assert!(md.contains("# C2PA Conformance Report"));
    assert!(md.contains("Report Generation Info"));
    assert!(md.contains("crJSON"));
}

#[test]
fn report_render_html_contains_expected() {
    let html = valid_crjson_report().render_html(false);
    assert!(html.contains("<!doctype html>"));
    assert!(html.contains("C2PA Conformance Report"));
}

#[test]
fn report_item_input_path_returns_resolved_path() {
    let item = ReportItem::CrJsonValidation(CrJsonValidationReport {
        input: InputDescriptor {
            original: "report.json".to_string(),
            resolved_path: "/work/report.json".to_string(),
            input_type: InputType::CrJson,
            detected_format: "application/json".to_string(),
        },
        valid: true,
        messages: vec![],
        rubric_results: vec![JsonValue::Null],
    });
    assert_eq!(item.input_path(), "/work/report.json");
}

#[test]
fn html_escape_replaces_markup_characters() {
    assert_eq!(html_escape("a<b>&c"), "a&lt;b&gt;&amp;c");
    assert_eq!(html_escape("&amp;"), "&amp;amp;");
    assert_eq!(html_escape("plain"), "plain");
}

#[test]
fn format_status_list_joins_codes_and_explanations() {
    let a = StatusRecord {
        code: "claimSignature.validated".to_string(),
        url: None,
        explanation: Some("ok".to_string()),
        kind: "success".to_string(),
    };
    let b = StatusRecord {
        code: "timeStamp.trusted".to_string(),
        url: None,
        explanation: None,
        kind: "success".to_string(),
    };
    assert_eq!(format_status_list(vec![&a, &b]), "claimSignature.validated (ok); timeStamp.trusted");
    assert_eq!(format_status_list(vec![]), "");
}

#[test]
fn partition_validation_statuses_groups_by_prefix() {
    let make = |code: &str| StatusRecord {
        code: code.to_string(),
        url: None,
        explanation: None,
        kind: "success".to_string(),
    };
    let statuses = vec![
        make("claimSignature.validated"),
        make("signingCredential.trusted"),
        make("timeStamp.validated"),
        make("assertion.hashedURI.match"),
        make("signingCertificate.ocsp"),
    ];
    let (claim, signing, ts) = partition_validation_statuses(&statuses);
    assert_eq!(claim.len(), 1);
    assert_eq!(signing.len(), 2);
    assert_eq!(signing[1].code, "signingCertificate.ocsp");
    assert_eq!(ts.len(), 1);
}

#[test]
fn compliance_and_section_labels() {
    assert_eq!(compliance_emoji_md("pass"), "**✅ pass**");
    assert_eq!(compliance_emoji_md("fail"), "**❌ fail**");
    assert_eq!(compliance_emoji_md("partial"), "**⚪ partial**");
    assert_eq!(compliance_label_emoji("pass"), "✅ pass");
    assert_eq!(compliance_label_emoji("other"), "⚪ other");
    assert_eq!(profile_section_emoji("Content Information"), "📄 ");
    assert_eq!(profile_section_emoji("Manifest details"), "📦 ");
    assert_eq!(profile_section_emoji("Actions"), "⚙️ ");
    assert_eq!(profile_section_emoji("COMPLIANCE"), "📊 ");
    assert_eq!(profile_section_emoji("Other"), "▪️ ");
}

#[test]
fn state_and_input_type_names() {
    assert_eq!(render_state(ValidationState::Trusted), "trusted");
    assert_eq!(render_state(ValidationState::Valid), "valid");
    assert_eq!(render_state(ValidationState::Invalid), "invalid");
    assert_eq!(format_input_type(InputType::Asset), "asset");
    assert_eq!(format_input_type(InputType::SidecarManifest), "sidecar manifest");
    assert_eq!(format_input_type(InputType::CrJson), "crJSON");
}

#[test]
fn html_escape_grows_by_entity_lengths() {
    let v = "a<b>&c&";
    let e = html_escape(v);
    assert_eq!(e.len(), v.len() + 4 * 2 + 3 + 3);
    assert_eq!(html_escape("plain text"), "plain text");
}

#[test]
fn html_escape_reads_back_with_replacements() {
    for v in ["a<b>&c", "&lt;", "&amp;gt;", "<<&&>>", "plain"] {
        let e = html_escape(v);
        assert!(!e.contains('<') && !e.contains('>'));
        assert_eq!(e.replace("&lt;", "<").replace("&gt;", ">").replace("&amp;", "&"), v);
    }
}
