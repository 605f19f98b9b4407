use gpu_charts::chart_config::{ChartConfig, ChartSystemMinimal};

#[test]
fn defaults_are_medium_quality() {
    let c = ChartConfig::default();
    assert_eq!(c.max_fps, 60);
    assert_eq!(c.msaa_samples, 2);
    assert!(!c.enable_bloom);
    assert!(c.enable_fxaa);
    assert_eq!(c.texture_filtering, "Bilinear");
    assert_eq!(c.chunk_size, 65536);
    assert_eq!(c.prefetch_distance, 2);
    assert_eq!(c.cache_size_mb, 256);
    assert_eq!(c.quality_preset, "medium");
}

#[test]
fn presets_set_rendering_and_keep_the_rest() {
    let mut system = ChartSystemMinimal::new("chart".to_string());
    assert_eq!(system.get_canvas_id(), "chart");
    assert_eq!(system.set_quality_preset("ultra"), Ok(()));
    let c = system.get_config().clone();
    assert_eq!((c.max_fps, c.msaa_samples, c.enable_bloom, c.enable_fxaa), (144, 8, true, true));
    assert_eq!(c.texture_filtering, "Anisotropic16x");
    assert_eq!(c.quality_preset, "ultra");
    assert_eq!(c.chunk_size, 65536);

    system.set_quality_preset("high").unwrap();
    assert_eq!(system.get_max_fps(), 120);
    assert_eq!(system.get_config().texture_filtering, "Anisotropic8x");
    system.set_quality_preset("low").unwrap();
    let c = system.get_config();
    assert_eq!((c.max_fps, c.msaa_samples, c.enable_bloom, c.enable_fxaa), (30, 1, false, false));
    assert_eq!(c.texture_filtering, "Nearest");
    system.set_quality_preset("medium").unwrap();
    assert_eq!(system.get_config().max_fps, 60);
}

#[test]
fn unknown_presets_are_refused() {
    let mut system = ChartSystemMinimal::new("c".to_string());
    assert_eq!(system.set_quality_preset("Ultra"), Err("Unknown preset: Ultra".to_string()));
    assert_eq!(system.get_config().quality_preset, "medium");
}

#[test]
fn features_and_frame_rate() {
    let mut system = ChartSystemMinimal::new("c".to_string());
    assert!(system.is_feature_enabled("scatter_plots"));
    assert!(system.is_feature_enabled("heatmaps"));
    assert!(!system.is_feature_enabled("three_d_charts"));
    assert!(system.is_feature_enabled("technical_indicators"));
    assert!(!system.is_feature_enabled("annotations"));
    system.set_max_fps(75);
    assert_eq!(system.get_max_fps(), 75);
    let mut c = ChartConfig::default();
    c.three_d_charts = true;
    system.update_config(c);
    assert!(system.is_feature_enabled("three_d_charts"));
    assert_eq!(system.get_max_fps(), 60);
}
