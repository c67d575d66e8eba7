use c2pa_validate::cli::{Cli, OutputFormat, RubricMode, TrustMode};
use c2pa_validate::json::{json_to_string, JsonValue};
use c2pa_validate::summary::RunProgress;
use c2pa_validate::report::{
    AssetReport, InputDescriptor, InputType, ManifestRecord, StatusRecord, TrustAssessment,
    ValidationState,
};
use c2pa_validate::validator::{
    build_asset_report, check_crjson_structure, check_inputs, check_options,
    claim_generator_from_manifest_value, claim_version_from_manifest_value, crjson_action,
    detect_input_type, effective_crjson, expand_input, has_glob_pattern, input_descriptor,
    has_false_trait_value, is_remote_resource, reads_as_crjson, rubric_crjson_report, rubric_requested,
    statuses_from_manifest_validation_results, untrusted_scenario_label,
    structure_report, trust_classification, trust_scenario_plans, CrJsonAction, ReaderSummary,
    ScenarioEvent, ScenarioRun, ScenarioStep, ValidatorError,
};

fn s(v: &str) -> JsonValue {
    JsonValue::String(v.to_string())
}

fn obj(members: Vec<(&str, JsonValue)>) -> JsonValue {
    JsonValue::Object(members.into_iter().map(|(k, v)| (k.to_string(), v)).collect())
}

fn cli_with_inputs(inputs: Vec<String>) -> Cli {
    Cli {
        inputs,
        output: None,
        format: OutputFormat::Json,
        profile: None,
        trust_mode: TrustMode::Default,
        trust_list: None,
        settings: None,
        strict: false,
        verbose: 0,
        rubric: None,
        rubric_dir: None,
        rubric_mode: RubricMode::Conformance,
        emit_crjson: false,
        crjson: false,
        rubric_strict: false,
        cert_profile: None,
        cert_schema: None,
        emit_cert_json: false,
    }
}

fn descriptor(path: &str) -> InputDescriptor {
    InputDescriptor {
        original: path.to_string(),
        resolved_path: path.to_string(),
        input_type: InputType::Asset,
        detected_format: "image/jpeg".to_string(),
    }
}

#[test]
fn detects_glob_patterns() {
    assert!(has_glob_pattern("*.jpg"));
    assert!(!has_glob_pattern("image.jpg"));
}

#[test]
fn expands_globs() {
    let inputs = expand_input("Cargo.toml", vec![]).unwrap();
    assert_eq!(inputs.len(), 1);
}

#[test]
fn expand_input_returns_glob_matches() {
    let matches = vec!["a/PXL_1.jpg".to_string(), "a/PXL_2.jpg".to_string()];
    let inputs = expand_input("a/PXL*.jpg", matches.clone()).unwrap();
    assert_eq!(inputs, matches);
}

#[test]
fn trust_classification_maps_state() {
    assert_eq!(trust_classification(ValidationState::Trusted), "trusted");
    assert_eq!(trust_classification(ValidationState::Valid), "valid_untrusted");
    assert_eq!(trust_classification(ValidationState::Invalid), "invalid");
}

#[test]
fn empty_inputs_returns_error() {
    let result = RunProgress::start(vec![]);
    let err = result.err().expect("empty inputs should yield an error");
    assert_eq!(err, ValidatorError::NoInputs);
    assert!(err.message().contains("no input files matched"));
    assert!(check_inputs(&vec!["a.jpg".to_string()]).is_ok());
    assert!(RunProgress::start(vec!["a.jpg".to_string()]).is_ok());
}

#[test]
fn glob_matching_nothing_returns_error() {
    let result = expand_input("assets/nonexistent_*.jpg", vec![]);
    let err = result.expect_err("glob matching no files should yield an error");
    let msg = err.message();
    assert!(msg.contains("did not match any files"), "error should mention pattern did not match: {}", msg);
    assert_eq!(msg, "pattern 'assets/nonexistent_*.jpg' did not match any files");
}

#[test]
fn custom_trust_mode_without_trust_list_returns_error() {
    let mut cli = cli_with_inputs(vec!["a.jpg".to_string()]);
    cli.trust_mode = TrustMode::Custom;
    let err = check_options(&cli).expect_err("custom trust mode without a list should fail");
    let msg = err.message();
    assert!(msg.contains("custom") && msg.contains("trust-list"), "{}", msg);
    cli.trust_list = Some("list.pem".to_string());
    assert!(check_options(&cli).is_ok());
}

#[test]
fn input_types_follow_extension_and_schema() {
    let crjson = obj(vec![("schema", s("crjson"))]);
    let other = obj(vec![("schema", s("other"))]);
    assert_eq!(detect_input_type(Some("c2pa"), None), InputType::SidecarManifest);
    assert_eq!(detect_input_type(Some("json"), Some(&crjson)), InputType::CrJson);
    assert_eq!(detect_input_type(Some("json"), Some(&other)), InputType::Asset);
    assert_eq!(detect_input_type(Some("jpg"), None), InputType::Asset);
    assert_eq!(detect_input_type(None, None), InputType::Asset);
    assert!(reads_as_crjson(true, InputType::Asset));
    assert!(reads_as_crjson(false, InputType::CrJson));
    assert!(!reads_as_crjson(false, InputType::SidecarManifest));
}

#[test]
fn trust_scenarios_by_mode() {
    let d = trust_scenario_plans(TrustMode::Default, None);
    assert_eq!(d.len(), 1);
    assert_eq!(d[0].label, "official");
    assert!(d[0].resource.ends_with("C2PA-TRUST-LIST.pem"));
    let i = trust_scenario_plans(TrustMode::Itl, None);
    assert_eq!(i.len(), 2);
    assert_eq!(i[1].label, "itl");
    assert!(i[1].resource.ends_with("ITL.pem"));
    let c = trust_scenario_plans(TrustMode::Custom, Some("my.pem"));
    assert_eq!(c.len(), 1);
    assert_eq!(c[0].label, "custom");
    assert_eq!(c[0].resource, "my.pem");
    assert!(is_remote_resource("https://example.com/list.pem"));
    assert!(is_remote_resource("http://example.com/list.pem"));
    assert!(!is_remote_resource("list.pem"));
}

fn asset(path: &str, state: ValidationState) -> AssetReport {
    AssetReport {
        input: descriptor(path),
        validation_state: state,
        trust: TrustAssessment {
            mode: "default".to_string(),
            classification: "x".to_string(),
            source: None,
            notes: vec![],
        },
        profile_path: None,
        profile_evaluation: None,
        active_manifest_label: None,
        manifest_count: 0,
        ingredient_count: 0,
        assertion_labels: vec![],
        statuses: vec![],
        manifests: vec![],
        reader_json: None,
        warnings: vec!["w0".to_string()],
    }
}

#[test]
fn trusted_scenario_ends_the_search() {
    let mut run = ScenarioRun::new();
    let step = run.step(ScenarioEvent::Failed("official".to_string(), "network".to_string()));
    assert!(matches!(step, ScenarioStep::Continue));
    let step = run.step(ScenarioEvent::Read(asset("a.jpg", ValidationState::Trusted)));
    match step {
        ScenarioStep::Done(a) => assert_eq!(a.validation_state, ValidationState::Trusted),
        ScenarioStep::Continue => panic!("a trusted read should end the search"),
    }
}

#[test]
fn last_untrusted_read_gets_failure_warnings() {
    let mut run = ScenarioRun::new();
    run.step(ScenarioEvent::Read(asset("a.jpg", ValidationState::Valid)));
    run.step(ScenarioEvent::Failed("itl".to_string(), "boom".to_string()));
    let a = run.finish().unwrap();
    assert_eq!(a.validation_state, ValidationState::Valid);
    assert_eq!(a.warnings, vec!["w0".to_string(), "trust scenario 'itl' could not complete: boom".to_string()]);
}

#[test]
fn all_scenarios_failing_is_an_error() {
    let mut run = ScenarioRun::new();
    run.step(ScenarioEvent::Failed("official".to_string(), "x".to_string()));
    let err = run.finish().unwrap_err();
    assert_eq!(err, ValidatorError::AllTrustScenariosFailed);
    assert_eq!(err.message(), "all trust scenarios failed");
}

#[test]
fn crjson_structure_checks_schema_version_and_results() {
    let good = obj(vec![
        ("schema", s("crjson")),
        ("schema_version", s("0.1.0")),
        ("results", JsonValue::Array(vec![])),
    ]);
    let (valid, messages) = check_crjson_structure(&good);
    assert!(valid);
    assert_eq!(messages, vec!["crJSON structure is valid".to_string()]);

    let bad = obj(vec![("schema", s("crjson"))]);
    let (valid, messages) = check_crjson_structure(&bad);
    assert!(!valid);
    assert_eq!(
        messages,
        vec!["schema_version is required".to_string(), "results must be an array".to_string()]
    );

    let report = structure_report(descriptor("x.json"), &JsonValue::Null);
    assert!(!report.valid);
    assert_eq!(report.messages.len(), 3);
    assert_eq!(report.messages[0], "schema must equal 'crjson'");
}

#[test]
fn crjson_action_prefers_rubrics_then_profile() {
    assert_eq!(crjson_action(2, true), CrJsonAction::EvaluateRubrics);
    assert_eq!(crjson_action(0, true), CrJsonAction::EvaluateProfile);
    assert_eq!(crjson_action(0, false), CrJsonAction::CheckStructure);
}

#[test]
fn effective_crjson_unwraps_tool_output() {
    let inner = obj(vec![("manifests", JsonValue::Array(vec![]))]);
    let wrapped = obj(vec![(
        "results",
        JsonValue::Array(vec![obj(vec![("kind", s("asset"))]), obj(vec![("reader_json", inner)])]),
    )]);
    let e = effective_crjson(&wrapped);
    assert!(e.get("manifests").is_some());
    let bare = obj(vec![("manifests", JsonValue::Array(vec![])), ("x", s("y"))]);
    assert!(effective_crjson(&bare).get("x").is_some());
    let neither = obj(vec![("results", JsonValue::Array(vec![]))]);
    assert!(effective_crjson(&neither).get("results").is_some());
}

#[test]
fn rubric_report_counts_rubrics() {
    let r = rubric_crjson_report(descriptor("x.json"), vec![JsonValue::Null, JsonValue::Null, JsonValue::Null], false);
    assert!(r.valid);
    assert_eq!(r.messages, vec!["evaluated 3 rubric(s) against crJSON".to_string()]);
    assert_eq!(r.rubric_results.len(), 3);
}

fn rubric_result(values: Vec<bool>) -> JsonValue {
    let items = values
        .into_iter()
        .map(|b| obj(vec![("id", s("trait")), ("value", JsonValue::Bool(b))]))
        .collect();
    obj(vec![("statements", JsonValue::Array(vec![JsonValue::Array(items)]))])
}

#[test]
fn false_traits_are_found_in_statements() {
    assert!(has_false_trait_value(&rubric_result(vec![true, false])));
    assert!(!has_false_trait_value(&rubric_result(vec![true, true])));
    assert!(!has_false_trait_value(&JsonValue::Null));
    assert!(!has_false_trait_value(&obj(vec![("statements", s("none"))])));
}

#[test]
fn strict_rubrics_fail_on_a_false_trait() {
    let results = || vec![rubric_result(vec![true]), rubric_result(vec![true, false])];
    let strict = rubric_crjson_report(descriptor("x.json"), results(), true);
    assert!(!strict.valid);
    let lenient = rubric_crjson_report(descriptor("x.json"), results(), false);
    assert!(lenient.valid);
    let all_true = rubric_crjson_report(descriptor("x.json"), vec![rubric_result(vec![true, true])], true);
    assert!(all_true.valid);
}

#[test]
fn rubric_request_comes_from_rubric_or_rubric_dir() {
    let mut cli = cli_with_inputs(vec!["a.jpg".to_string()]);
    assert!(!rubric_requested(&cli));
    cli.rubric = Some("r.yml".to_string());
    assert!(rubric_requested(&cli));
    cli.rubric = None;
    cli.rubric_dir = Some("rubrics".to_string());
    assert!(rubric_requested(&cli));
}

#[test]
fn failed_trust_scenarios_fall_back_to_an_untrusted_read_for_rubrics() {
    let mut run = ScenarioRun::new();
    run.step(ScenarioEvent::Failed("official".to_string(), "x".to_string()));
    assert!(run.wants_untrusted_read(true));
    assert!(!run.wants_untrusted_read(false));
    assert_eq!(untrusted_scenario_label(), "untrusted");
    let mut read = asset("a.jpg", ValidationState::Valid);
    let crjson = || obj(vec![("manifests", JsonValue::Array(vec![])), ("label", s("m1"))]);
    read.reader_json = Some(crjson());
    let step = run.step(ScenarioEvent::Read(read));
    assert!(matches!(step, ScenarioStep::Continue));
    assert!(!run.wants_untrusted_read(true));
    let a = run.finish().unwrap();
    assert_eq!(a.reader_json.as_ref().map(json_to_string), Some(json_to_string(&crjson())));
    assert_eq!(a.warnings, vec!["w0".to_string(), "trust scenario 'official' could not complete: x".to_string()]);
}

#[test]
fn claim_version_and_generator_from_manifest() {
    let v2 = obj(vec![(
        "claim.v2",
        obj(vec![("claim_generator_info", obj(vec![("name", s("Tool")), ("version", s("1.2"))]))]),
    )]);
    assert_eq!(claim_version_from_manifest_value(&v2), Some("2".to_string()));
    assert_eq!(claim_generator_from_manifest_value(&v2), Some("Tool 1.2".to_string()));
    let v1 = obj(vec![("claim", obj(vec![("claim_generator_info", obj(vec![("name", s("Old"))]))]))]);
    assert_eq!(claim_version_from_manifest_value(&v1), Some("1".to_string()));
    assert_eq!(claim_generator_from_manifest_value(&v1), Some("Old".to_string()));
    assert_eq!(claim_version_from_manifest_value(&JsonValue::Null), None);
    assert_eq!(claim_generator_from_manifest_value(&obj(vec![])), None);
}

fn status_item(code: &str) -> JsonValue {
    obj(vec![("code", s(code)), ("explanation", s("why"))])
}

fn manifest_json() -> JsonValue {
    obj(vec![
        ("claim.v2", obj(vec![("claim_generator_info", obj(vec![("name", s("Gen"))]))])),
        (
            "validationResults",
            obj(vec![
                ("failure", JsonValue::Array(vec![status_item("claimSignature.mismatch")])),
                ("success", JsonValue::Array(vec![status_item("timeStamp.validated")])),
            ]),
        ),
    ])
}

#[test]
fn statuses_in_success_informational_failure_order() {
    let st = statuses_from_manifest_validation_results(&manifest_json());
    assert_eq!(st.len(), 2);
    assert_eq!(st[0].code, "timeStamp.validated");
    assert_eq!(st[0].kind, "success");
    assert_eq!(st[1].code, "claimSignature.mismatch");
    assert_eq!(st[1].kind, "failure");
    assert_eq!(st[1].explanation.as_deref(), Some("why"));
    assert!(statuses_from_manifest_validation_results(&JsonValue::Null).is_empty());
}

fn manifest_record(label: &str) -> ManifestRecord {
    ManifestRecord {
        label: Some(label.to_string()),
        title: None,
        format: None,
        claim_version: None,
        claim_generator: Some("reader".to_string()),
        signature: None,
        ingredients: vec![],
        assertions: vec![],
        statuses: vec![],
    }
}

#[test]
fn asset_report_merges_reader_crjson() {
    let reader = ReaderSummary {
        validation_state: ValidationState::Valid,
        active_manifest_label: Some("m1".to_string()),
        statuses: vec![],
        manifests: vec![manifest_record("m1")],
        reader_json: Some(obj(vec![("manifests", JsonValue::Array(vec![manifest_json()]))])),
    };
    let a = build_asset_report(
        descriptor("a.jpg"),
        TrustMode::Itl,
        None,
        "itl",
        "itl".to_string(),
        reader,
        None,
    );
    assert_eq!(a.trust.mode, "itl");
    assert_eq!(a.trust.classification, "valid_untrusted");
    assert_eq!(a.trust.notes, vec!["ITL was checked but the manifest did not chain to it".to_string()]);
    assert_eq!(a.manifest_count, 1);
    assert_eq!(a.statuses.len(), 2);
    assert_eq!(a.manifests[0].claim_version.as_deref(), Some("2"));
    assert_eq!(a.manifests[0].claim_generator.as_deref(), Some("Gen"));
    assert_eq!(a.manifests[0].statuses.len(), 2);
}

#[test]
fn reader_statuses_are_kept_when_present() {
    let reader = ReaderSummary {
        validation_state: ValidationState::Trusted,
        active_manifest_label: None,
        statuses: vec![StatusRecord {
            code: "signingCredential.trusted".to_string(),
            url: None,
            explanation: None,
            kind: "success".to_string(),
        }],
        manifests: vec![],
        reader_json: Some(obj(vec![("manifests", JsonValue::Array(vec![manifest_json()]))])),
    };
    let a = build_asset_report(descriptor("a.jpg"), TrustMode::Default, None, "official", "official".to_string(), reader, None);
    assert_eq!(a.statuses.len(), 1);
    assert_eq!(a.statuses[0].code, "signingCredential.trusted");
    assert!(a.trust.notes.is_empty());
}

#[test]
fn descriptor_defaults_unknown_format() {
    let d = input_descriptor("a.bin".to_string(), "/w/a.bin".to_string(), InputType::Asset, None);
    assert_eq!(d.detected_format, "application/octet-stream");
    let d = input_descriptor("a.jpg".to_string(), "/w/a.jpg".to_string(), InputType::Asset, Some("image/jpeg".to_string()));
    assert_eq!(d.detected_format, "image/jpeg");
}
