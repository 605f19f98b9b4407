//! The chart configuration of the minimal browser bridge: quality presets,
//! feature switches and the frame-rate limit.
use vstd::prelude::*;
use crate::text::str_eq;

verus! {

/// Rendering, performance and feature settings of a chart.
#[derive(Debug, Clone, PartialEq, Eq)]
pub struct ChartConfig {
    pub max_fps: u32,
    pub msaa_samples: u8,
    pub enable_bloom: bool,
    pub enable_fxaa: bool,
    pub texture_filtering: String,
    pub chunk_size: u32,
    pub prefetch_distance: u32,
    pub cache_size_mb: u32,
    pub scatter_plots: bool,
    pub heatmaps: bool,
    pub three_d_charts: bool,
    pub technical_indicators: bool,
    pub quality_preset: String,
}

impl Default for ChartConfig {
    /// Medium quality at 60 fps, with every feature but 3D charts.
    fn default() -> (r: ChartConfig)
        ensures
            r.max_fps == 60,
            r.msaa_samples == 2,
            !r.enable_bloom,
            r.enable_fxaa,
            r.texture_filtering@ == "Bilinear"@,
            r.chunk_size == 65536,
            r.prefetch_distance == 2,
            r.cache_size_mb == 256,
            r.scatter_plots,
            r.heatmaps,
            !r.three_d_charts,
            r.technical_indicators,
            r.quality_preset@ == "medium"@,
    {
        ChartConfig {
            max_fps: 60,
            msaa_samples: 2,
            enable_bloom: false,
            enable_fxaa: true,
            texture_filtering: String::from_str("Bilinear"),
            chunk_size: 65536,
            prefetch_distance: 2,
            cache_size_mb: 256,
            scatter_plots: true,
            heatmaps: true,
            three_d_charts: false,
            technical_indicators: true,
            quality_preset: String::from_str("medium"),
        }
    }
}

/// The rendering settings of a quality preset: frame-rate limit, MSAA
/// samples, bloom, FXAA and texture filtering.
pub open spec fn preset_settings(preset: Seq<char>) -> Option<(u32, u8, bool, bool, Seq<char>)> {
    if preset == "ultra"@ {
        Some((144u32, 8u8, true, true, "Anisotropic16x"@))
    } else if preset == "high"@ {
        Some((120u32, 4u8, true, true, "Anisotropic8x"@))
    } else if preset == "medium"@ {
        Some((60u32, 2u8, false, true, "Bilinear"@))
    } else if preset == "low"@ {
        Some((30u32, 1u8, false, false, "Nearest"@))
    } else {
        None
    }
}

/// The value of a feature switch; unknown features are off.
pub open spec fn feature_enabled(c: ChartConfig, feature: Seq<char>) -> bool {
    if feature == "scatter_plots"@ {
        c.scatter_plots
    } else if feature == "heatmaps"@ {
        c.heatmaps
    } else if feature == "three_d_charts"@ {
        c.three_d_charts
    } else if feature == "technical_indicators"@ {
        c.technical_indicators
    } else {
        false
    }
}

/// `after` is `before` with the rendering settings `s` of preset `name`
/// applied; everything else is kept.
pub open spec fn applies_preset(before: ChartConfig, after: ChartConfig, s: (u32, u8, bool, bool, Seq<char>), name: Seq<char>) -> bool {
    &&& after.max_fps == s.0
    &&& after.msaa_samples == s.1
    &&& after.enable_bloom == s.2
    &&& after.enable_fxaa == s.3
    &&& after.texture_filtering@ == s.4
    &&& after.quality_preset@ == name
    &&& after.chunk_size == before.chunk_size
    &&& after.prefetch_distance == before.prefetch_distance
    &&& after.cache_size_mb == before.cache_size_mb
    &&& after.scatter_plots == before.scatter_plots
    &&& after.heatmaps == before.heatmaps
    &&& after.three_d_charts == before.three_d_charts
    &&& after.technical_indicators == before.technical_indicators
}

/// A chart system bound to a canvas, holding its configuration.
pub struct ChartSystemMinimal {
    config: ChartConfig,
    canvas_id: String,
}

impl ChartSystemMinimal {
    /// The current configuration.
    pub closed spec fn config(&self) -> ChartConfig {
        self.config
    }

    /// The canvas the system draws on.
    pub closed spec fn canvas(&self) -> Seq<char> {
        self.canvas_id@
    }

    /// A system for `canvas_id` with the default configuration.
    pub fn new(canvas_id: String) -> (r: ChartSystemMinimal)
        ensures
            r.canvas() == canvas_id@,
            r.config().max_fps == 60,
            r.config().quality_preset@ == "medium"@,
            r.config().texture_filtering@ == "Bilinear"@,
    {
        ChartSystemMinimal { config: ChartConfig::default(), canvas_id }
    }

    /// Replaces the configuration.
    pub fn update_config(&mut self, config: ChartConfig)
        ensures
            final(self).config() == config,
            final(self).canvas() == old(self).canvas(),
    {
        self.config = config;
    }

    /// The current configuration.
    pub fn get_config(&self) -> (r: &ChartConfig)
        ensures
            *r == self.config(),
    {
        &self.config
    }

    /// Applies a quality preset ("ultra", "high", "medium" or "low"); any
    /// other name is refused with "Unknown preset: <name>" and changes nothing.
    pub fn set_quality_preset(&mut self, preset: &str) -> (r: Result<(), String>)
        ensures
            final(self).canvas() == old(self).canvas(),
            preset_settings(preset@) matches Some(s) ==> r is Ok && applies_preset(old(self).config(), final(self).config(), s, preset@),
            preset_settings(preset@) is None ==> final(self).config() == old(self).config()
                && (r matches Err(m) && m@ == "Unknown preset: "@ + preset@),
    {
        proof {
            reveal_strlit("ultra");
            reveal_strlit("high");
            reveal_strlit("medium");
            reveal_strlit("low");
        }
        let (fps, msaa, bloom, fxaa, filtering, name): (u32, u8, bool, bool, &str, &str) = if str_eq(preset, "ultra") {
            (144, 8, true, true, "Anisotropic16x", "ultra")
        } else if str_eq(preset, "high") {
            (120, 4, true, true, "Anisotropic8x", "high")
        } else if str_eq(preset, "medium") {
            (60, 2, false, true, "Bilinear", "medium")
        } else if str_eq(preset, "low") {
            (30, 1, false, false, "Nearest", "low")
        } else {
            let mut m = String::from_str("Unknown preset: ");
            m.append(preset);
            return Err(m);
        };
        self.config.max_fps = fps;
        self.config.msaa_samples = msaa;
        self.config.enable_bloom = bloom;
        self.config.enable_fxaa = fxaa;
        self.config.texture_filtering = String::from_str(filtering);
        self.config.quality_preset = String::from_str(name);
        Ok(())
    }

    /// Is a feature switched on? Unknown features are off.
    pub fn is_feature_enabled(&self, feature: &str) -> (r: bool)
        ensures
            r == feature_enabled(self.config(), feature@),
    {
        if str_eq(feature, "scatter_plots") {
            self.config.scatter_plots
        } else if str_eq(feature, "heatmaps") {
            self.config.heatmaps
        } else if str_eq(feature, "three_d_charts") {
            self.config.three_d_charts
        } else if str_eq(feature, "technical_indicators") {
            self.config.technical_indicators
        } else {
            false
        }
    }

    /// The frame-rate limit.
    pub fn get_max_fps(&self) -> (r: u32)
        ensures
            r == self.config().max_fps,
    {
        self.config.max_fps
    }

    /// Sets the frame-rate limit, keeping every other setting.
    pub fn set_max_fps(&mut self, fps: u32)
        ensures
            final(self).config() == (ChartConfig { max_fps: fps, ..old(self).config() }),
            final(self).canvas() == old(self).canvas(),
    {
        self.config.max_fps = fps;
    }

    /// The canvas identifier.
    pub fn get_canvas_id(&self) -> (r: String)
        ensures
            r@ == self.canvas(),
    {
        self.canvas_id.clone()
    }
}

} // verus!
