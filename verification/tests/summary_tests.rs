use c2pa_validate::report::{
    AssetReport, CrJsonValidationReport, ExitStatus, InputDescriptor, InputType, ReportItem,
    TrustAssessment, ValidationState,
};
use c2pa_validate::summary::{assemble_report, summarize, RunProgress};
use c2pa_validate::validator::ValidatorError;

fn descriptor(path: &str) -> InputDescriptor {
    InputDescriptor {
        original: path.to_string(),
        resolved_path: path.to_string(),
        input_type: InputType::Asset,
        detected_format: "image/jpeg".to_string(),
    }
}

fn asset(state: ValidationState, warnings: usize) -> ReportItem {
    ReportItem::Asset(AssetReport {
        input: descriptor("a.jpg"),
        validation_state: state,
        trust: TrustAssessment {
            mode: "default".to_string(),
            classification: "x".to_string(),
            source: None,
            notes: vec![],
        },
        profile_path: None,
        profile_evaluation: None,
        active_manifest_label: None,
        manifest_count: 0,
        ingredient_count: 0,
        assertion_labels: vec![],
        statuses: vec![],
        manifests: vec![],
        reader_json: None,
        warnings: (0..warnings).map(|i| format!("w{i}")).collect(),
    })
}

fn crjson(valid: bool) -> ReportItem {
    ReportItem::CrJsonValidation(CrJsonValidationReport {
        input: descriptor("r.json"),
        valid,
        messages: vec![],
        rubric_results: vec![],
    })
}

#[test]
fn summary_counts_each_result() {
    let results = vec![
        asset(ValidationState::Trusted, 0),
        asset(ValidationState::Valid, 2),
        asset(ValidationState::Invalid, 1),
        crjson(true),
        crjson(false),
    ];
    let s = summarize(&results, false);
    assert_eq!((s.total, s.trusted, s.valid, s.invalid, s.errors, s.warnings), (5, 1, 1, 1, 1, 3));
    assert_eq!(s.trusted + s.valid + s.invalid + 2, s.total);
}

#[test]
fn strict_mode_counts_valid_assets_with_warnings() {
    let results = vec![asset(ValidationState::Valid, 1), asset(ValidationState::Valid, 0), asset(ValidationState::Trusted, 4)];
    let lenient = summarize(&results, false);
    let strict = summarize(&results, true);
    assert_eq!(lenient.errors, 0);
    assert_eq!(strict.errors, 1);
    assert_eq!(strict.warnings, lenient.warnings);
}

#[test]
fn assembled_report_exit_status() {
    let ok = assemble_report(vec![asset(ValidationState::Valid, 1)], false, "c2pa-rs", "0.78.8", "today".to_string());
    assert_eq!(ok.schema, "crjson");
    assert_eq!(ok.schema_version, "0.1.0");
    assert_eq!(ok.tool.c2pa_sdk.name, "c2pa-rs");
    assert_eq!(ok.results.len(), 1);
    assert_eq!(ok.exit_code(), ExitStatus::Success);
    let strict = assemble_report(vec![asset(ValidationState::Valid, 1)], true, "c2pa-rs", "0.78.8", "today".to_string());
    assert_eq!(strict.exit_code(), ExitStatus::Failure);
    let invalid = assemble_report(vec![asset(ValidationState::Invalid, 0)], false, "c2pa-rs", "0.78.8", "today".to_string());
    assert_eq!(invalid.exit_code(), ExitStatus::Failure);
    let bad_crjson = assemble_report(vec![crjson(false)], false, "c2pa-rs", "0.78.8", "today".to_string());
    assert_eq!(bad_crjson.summary.errors, 1);
    assert_eq!(bad_crjson.exit_code(), ExitStatus::Failure);
}

#[test]
fn run_progress_gives_one_result_per_input() {
    assert_eq!(RunProgress::start(vec![]).err(), Some(ValidatorError::NoInputs));
    let mut p = RunProgress::start(vec!["a.jpg".to_string(), "b.jpg".to_string()]).unwrap();
    assert_eq!(p.next_input(), Some("a.jpg"));
    p.record(asset(ValidationState::Trusted, 1));
    assert_eq!(p.next_input(), Some("b.jpg"));
    p.record(asset(ValidationState::Invalid, 2));
    assert_eq!(p.next_input(), None);
    let r = p.finish(false, "c2pa-rs", "0.78.8", "today".to_string());
    assert_eq!(r.results.len(), 2);
    assert_eq!((r.summary.total, r.summary.trusted, r.summary.invalid, r.summary.warnings), (2, 1, 1, 3));
    assert_eq!(r.schema, "crjson");
    assert_eq!(r.schema_version, "0.1.0");
}
