use gpu_charts::api::{ApiVersion, DeprecationTracker, DeprecationWarning, OpenApiGenerator, TypeScriptGenerator};

#[test]
fn version_defaults_to_one() {
    assert_eq!(ApiVersion::default(), ApiVersion { major: 1, minor: 0, patch: 0 });
}

#[test]
fn the_synchronous_chart_api_is_deprecated() {
    let tracker = DeprecationTracker::new();
    assert!(tracker.is_deprecated("createChartSync"));
    assert!(!tracker.is_deprecated("createChart"));
    let warnings = tracker.get_warnings();
    assert_eq!(warnings.len(), 1);
    assert_eq!(warnings[0].since_version, "0.9.0");
    assert_eq!(warnings[0].removal_version.as_deref(), Some("2.0.0"));
    assert_eq!(warnings[0].alternative, "Use createChart (async) instead");
}

#[test]
fn added_deprecations_are_kept_in_order() {
    let mut tracker = DeprecationTracker::new();
    tracker.add_deprecation(DeprecationWarning {
        feature: "legacyRender".to_string(),
        since_version: "1.1.0".to_string(),
        removal_version: None,
        alternative: "Use renderChart".to_string(),
    });
    assert!(tracker.is_deprecated("legacyRender"));
    let warnings = tracker.get_warnings();
    assert_eq!(warnings.len(), 2);
    assert_eq!(warnings[1].feature, "legacyRender");
    assert_eq!(warnings[1].removal_version, None);
}

#[test]
fn typescript_definitions_describe_the_api() {
    let ts = TypeScriptGenerator::generate();
    assert!(ts.starts_with("// Auto-generated TypeScript definitions for GPU Charts API\n"));
    assert!(ts.contains("export interface GpuChartsApi {"));
    assert!(ts.contains("createChart(config: ChartConfiguration): Promise<string>;"));
    assert!(ts.trim_end().ends_with("}"));
}

#[test]
fn openapi_document_is_valid_json() {
    let doc: serde_json::Value = serde_json::from_str(&OpenApiGenerator::document()).unwrap();
    assert_eq!(doc["openapi"], "3.0.0");
    assert_eq!(doc["info"]["title"], "GPU Charts API");
    assert_eq!(doc["info"]["version"], "1.0.0");
    assert_eq!(doc["servers"][0]["url"], "https://api.gpucharts.io/v1");
    assert_eq!(doc["paths"]["/charts"]["post"]["operationId"], "createChart");
    assert!(doc["components"].is_object());
}
