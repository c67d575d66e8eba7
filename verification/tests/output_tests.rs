use c2pa_validate::cli::OutputFormat;
use c2pa_validate::json::JsonValue;
use c2pa_validate::output::{
    crjson_output_path, default_output_path, format_extension, is_structured_format,
    normalize_output_path, output_is_dir, resolve_output_dir, resolve_output_path, OutputError,
};
use c2pa_validate::report::{
    AssetReport, CrJsonReport, CrJsonValidationReport, InputDescriptor, InputType, ReportItem,
    SdkMetadata, Summary, ToolMetadata, TrustAssessment, ValidationState,
};
use c2pa_validate::structured::{
    plan_output, OutputPlan, report_to_structured_value, structured_asset_value, structured_crjson_value,
    structured_output_files, writes_one_file_per_asset,
};

fn descriptor(path: &str, t: InputType) -> InputDescriptor {
    InputDescriptor {
        original: path.to_string(),
        resolved_path: path.to_string(),
        input_type: t,
        detected_format: "image/jpeg".to_string(),
    }
}

fn asset(path: &str, reader_json: Option<JsonValue>, profile: Option<JsonValue>) -> ReportItem {
    ReportItem::Asset(AssetReport {
        input: descriptor(path, InputType::Asset),
        validation_state: ValidationState::Valid,
        trust: TrustAssessment {
            mode: "default".to_string(),
            classification: "valid_untrusted".to_string(),
            source: None,
            notes: vec![],
        },
        profile_path: None,
        profile_evaluation: profile,
        active_manifest_label: None,
        manifest_count: 0,
        ingredient_count: 0,
        assertion_labels: vec![],
        statuses: vec![],
        manifests: vec![],
        reader_json,
        warnings: vec![],
    })
}

fn report(results: Vec<ReportItem>) -> CrJsonReport {
    CrJsonReport {
        schema: "crjson",
        schema_version: "0.1.0",
        tool: ToolMetadata {
            name: "test",
            version: "0.0.0",
            c2pa_sdk: SdkMetadata { name: "c2pa", version: "0.0.0", source: "test" },
        },
        generated_at: "0".to_string(),
        summary: Summary { total: 0, trusted: 0, valid: 0, invalid: 0, errors: 0, warnings: 0 },
        results,
    }
}

fn marker(n: &str) -> JsonValue {
    JsonValue::Object(vec![("id".to_string(), JsonValue::String(n.to_string()))])
}

#[test]
fn normalize_output_path_none_returns_none() {
    assert!(normalize_output_path(None, "/work").is_none());
}

#[test]
fn normalize_output_path_absolute_returns_unchanged() {
    let abs = "/tmp/out.json".to_string();
    assert_eq!(normalize_output_path(Some(abs.clone()), "/work"), Some(abs));
}

#[test]
fn normalize_output_path_relative_joins_cwd() {
    let result = normalize_output_path(Some("out.json".to_string()), "/work");
    assert!(result.is_some());
    let result = result.unwrap();
    assert!(result.starts_with('/') || result.starts_with("out"));
    assert_eq!(result, "/work/out.json");
}

#[test]
fn formats_and_extensions() {
    assert!(is_structured_format(OutputFormat::Json));
    assert!(is_structured_format(OutputFormat::Yaml));
    assert!(!is_structured_format(OutputFormat::Markdown));
    assert!(!is_structured_format(OutputFormat::Html));
    assert_eq!(format_extension(OutputFormat::Json), "json");
    assert_eq!(format_extension(OutputFormat::Yaml), "yaml");
    assert_eq!(format_extension(OutputFormat::Markdown), "md");
    assert_eq!(format_extension(OutputFormat::Html), "html");
}

#[test]
fn default_path_is_beside_the_first_input() {
    let r = report(vec![asset("/data/photo.jpg", None, None)]);
    assert_eq!(default_output_path(OutputFormat::Json, &r, false), "/data/photo.json");
    assert_eq!(default_output_path(OutputFormat::Yaml, &r, true), "/data/photo_report.yaml");
    let empty = report(vec![]);
    assert_eq!(default_output_path(OutputFormat::Markdown, &empty, true), "./report.md");
    let bare = report(vec![asset("photo.jpg", None, None)]);
    assert_eq!(default_output_path(OutputFormat::Html, &bare, false), "photo.html");
}

#[test]
fn crjson_path_is_beside_the_profile_report() {
    let r = report(vec![asset("/data/photo.jpg", None, None)]);
    assert_eq!(crjson_output_path(OutputFormat::Json, &r, "/out/photo_report.json"), "/out/photo.json");
}

#[test]
fn output_path_as_directory_or_file() {
    let r = report(vec![asset("/data/photo.jpg", None, None)]);
    assert!(output_is_dir("/out", false));
    assert!(!output_is_dir("/out/x.json", false));
    assert!(output_is_dir("/out/x.json", true));
    assert_eq!(resolve_output_path("/out", false, OutputFormat::Json, &r, false), "/out/photo.json");
    assert_eq!(resolve_output_path("/out", false, OutputFormat::Json, &r, true), "/out/photo_report.json");
    assert_eq!(resolve_output_path("/out/x.yml", false, OutputFormat::Yaml, &r, false), "/out/x.yml");
    let two = report(vec![asset("/a/p.jpg", None, None), asset("/a/q.jpg", None, None)]);
    assert_eq!(resolve_output_path("/out", false, OutputFormat::Html, &two, false), "/out/report.html");
}

#[test]
fn output_dir_refuses_a_file_name() {
    assert_eq!(resolve_output_dir("./out", false), Ok("./out".to_string()));
    assert_eq!(resolve_output_dir("./out.json", false), Err(OutputError::DirectoryRequired));
    assert_eq!(resolve_output_dir("./out.json", true), Ok("./out.json".to_string()));
    assert!(OutputError::DirectoryRequired.message().starts_with("With multiple inputs"));
}

#[test]
fn structured_value_of_one_and_several_results() {
    let none = report(vec![asset("/a/p.jpg", None, None)]);
    assert!(matches!(report_to_structured_value(&none, false), JsonValue::Null));
    let one = report(vec![asset("/a/p.jpg", Some(marker("p")), None)]);
    let v = report_to_structured_value(&one, false);
    assert_eq!(v.get("id").and_then(|x| x.as_str()), Some("p"));
    let two = report(vec![asset("/a/p.jpg", Some(marker("p")), None), asset("/a/q.jpg", Some(marker("q")), None)]);
    match report_to_structured_value(&two, false) {
        JsonValue::Array(items) => assert_eq!(items.len(), 2),
        _ => panic!("several values make an array"),
    }
    let profile = report(vec![asset("/a/p.jpg", Some(marker("p")), Some(marker("eval")))]);
    let v = report_to_structured_value(&profile, true);
    assert_eq!(v.get("id").and_then(|x| x.as_str()), Some("eval"));
}

#[test]
fn crjson_result_structured_value() {
    let plain = CrJsonValidationReport {
        input: descriptor("/a/r.json", InputType::CrJson),
        valid: false,
        messages: vec!["results must be an array".to_string()],
        rubric_results: vec![],
    };
    assert!(structured_crjson_value(&plain).is_none());
    let lone = report(vec![ReportItem::CrJsonValidation(plain)]);
    assert!(matches!(report_to_structured_value(&lone, false), JsonValue::Null));
    let one = CrJsonValidationReport {
        input: descriptor("/a/r.json", InputType::CrJson),
        valid: true,
        messages: vec![],
        rubric_results: vec![marker("r1")],
    };
    let v = structured_crjson_value(&one).unwrap();
    assert_eq!(v.get("id").and_then(|x| x.as_str()), Some("r1"));
    if let ReportItem::Asset(a) = asset("/a/p.jpg", Some(marker("p")), None) {
        assert!(structured_asset_value(&a, true).is_none());
        assert!(structured_asset_value(&a, false).is_some());
    }
}

#[test]
fn same_stems_get_numbered_suffixes() {
    let r = report(vec![
        asset("/x/photo.jpg", Some(marker("1")), None),
        asset("/y/photo.png", Some(marker("2")), None),
        asset("/y/other.jpg", Some(marker("3")), None),
        asset("/z/photo.jpg", Some(marker("4")), None),
    ]);
    let files = structured_output_files(&r, Some("out"), OutputFormat::Json, false);
    let paths: Vec<&str> = files.iter().map(|f| f.path.as_str()).collect();
    assert_eq!(paths, vec!["out/photo.json", "out/photo_2.json", "out/other.json", "out/photo_3.json"]);
    let beside = structured_output_files(&r, None, OutputFormat::Yaml, false);
    let paths: Vec<&str> = beside.iter().map(|f| f.path.as_str()).collect();
    assert_eq!(paths, vec!["/x/photo.yaml", "/y/photo.yaml", "/y/other.yaml", "/z/photo.yaml"]);
}

#[test]
fn profile_output_writes_crjson_and_report_per_asset() {
    let r = report(vec![
        asset("/x/a.jpg", Some(marker("c")), Some(marker("p"))),
        asset("/y/a.jpg", None, Some(marker("q"))),
    ]);
    let files = structured_output_files(&r, Some("o"), OutputFormat::Json, true);
    let paths: Vec<&str> = files.iter().map(|f| f.path.as_str()).collect();
    assert_eq!(paths, vec!["o/a.json", "o/a_report.json", "o/a_report_2.json"]);
    assert!(writes_one_file_per_asset(OutputFormat::Json, &r));
    assert!(!writes_one_file_per_asset(OutputFormat::Markdown, &r));
    let single = report(vec![asset("/x/a.jpg", None, None)]);
    assert!(!writes_one_file_per_asset(OutputFormat::Json, &single));
}

#[test]
fn output_plan_by_report_and_options() {
    let two = report(vec![asset("/a/p.jpg", Some(marker("p")), None), asset("/a/q.jpg", Some(marker("q")), None)]);
    match plan_output(OutputFormat::Json, Some("out"), false, false, &two) {
        Ok(OutputPlan::PerAsset { out_dir }) => assert_eq!(out_dir.as_deref(), Some("out")),
        _ => panic!("several assets in JSON go one file per asset"),
    }
    assert!(matches!(
        plan_output(OutputFormat::Json, Some("out.json"), false, false, &two),
        Err(OutputError::DirectoryRequired)
    ));
    match plan_output(OutputFormat::Json, None, false, false, &two) {
        Ok(OutputPlan::PerAsset { out_dir }) => assert!(out_dir.is_none()),
        _ => panic!("several assets in JSON go one file per asset"),
    }
    match plan_output(OutputFormat::Markdown, None, false, false, &two) {
        Ok(OutputPlan::Single { create_dir, parent, path }) => {
            assert!(create_dir.is_none());
            assert_eq!(path, "/a/p.md");
            assert_eq!(parent.as_deref(), Some("/a"));
        }
        _ => panic!("markdown is one file"),
    }
    let one = report(vec![asset("/a/p.jpg", Some(marker("p")), Some(marker("e")))]);
    match plan_output(OutputFormat::Yaml, Some("/out"), false, true, &one) {
        Ok(OutputPlan::ReportAndCrJson { create_dir, parent, report_path, crjson_path }) => {
            assert_eq!(create_dir.as_deref(), Some("/out"));
            assert_eq!(parent.as_deref(), Some("/out"));
            assert_eq!(report_path, "/out/p_report.yaml");
            assert_eq!(crjson_path, "/out/p.yaml");
        }
        _ => panic!("a profile writes a report and the crJSON"),
    }
    match plan_output(OutputFormat::Json, Some("/out/x.json"), false, false, &one) {
        Ok(OutputPlan::Single { create_dir, path, .. }) => {
            assert!(create_dir.is_none());
            assert_eq!(path, "/out/x.json");
        }
        _ => panic!("a file output is one file"),
    }
}
