//! Versioning of the public API: the version number, deprecation tracking
//! and the TypeScript definitions handed to web clients.
use vstd::prelude::*;
use crate::text::str_eq;

verus! {

/// API version information.
#[derive(Debug, Clone, Copy, PartialEq, Eq, Structural)]
pub struct ApiVersion {
    pub major: u32,
    pub minor: u32,
    pub patch: u32,
}

impl Default for ApiVersion {
    /// Version 1.0.0.
    fn default() -> (r: ApiVersion)
        ensures
            r == (ApiVersion { major: 1, minor: 0, patch: 0 }),
    {
        ApiVersion { major: 1, minor: 0, patch: 0 }
    }
}

/// A deprecated feature: since when, until when, and what to use instead.
#[derive(Debug, Clone, PartialEq, Eq)]
pub struct DeprecationWarning {
    pub feature: String,
    pub since_version: String,
    pub removal_version: Option<String>,
    pub alternative: String,
}

fn copy_warning(w: &DeprecationWarning) -> (r: DeprecationWarning)
    ensures
        r == *w,
{
    DeprecationWarning {
        feature: w.feature.clone(),
        since_version: w.since_version.clone(),
        removal_version: match &w.removal_version {
            Some(v) => Some(v.clone()),
            None => None,
        },
        alternative: w.alternative.clone(),
    }
}

/// Is `feature` named by one of the warnings?
pub open spec fn names_feature(warnings: Seq<DeprecationWarning>, feature: Seq<char>) -> bool {
    exists|i: int| 0 <= i < warnings.len() && #[trigger] warnings[i].feature@ == feature
}

/// The deprecations known to the API.
pub struct DeprecationTracker {
    warnings: Vec<DeprecationWarning>,
}

impl DeprecationTracker {
    /// The warnings, in the order they were added.
    pub closed spec fn warnings(&self) -> Seq<DeprecationWarning> {
        self.warnings@
    }

    /// A tracker that knows the deprecation of the synchronous `createChartSync`.
    pub fn new() -> (r: DeprecationTracker)
        ensures
            r.warnings().len() == 1,
            r.warnings()[0].feature@ == "createChartSync"@,
            r.warnings()[0].since_version@ == "0.9.0"@,
            r.warnings()[0].removal_version matches Some(v) && v@ == "2.0.0"@,
            r.warnings()[0].alternative@ == "Use createChart (async) instead"@,
    {
        let mut tracker = DeprecationTracker { warnings: Vec::new() };
        tracker.add_deprecation(DeprecationWarning {
            feature: String::from_str("createChartSync"),
            since_version: String::from_str("0.9.0"),
            removal_version: Some(String::from_str("2.0.0")),
            alternative: String::from_str("Use createChart (async) instead"),
        });
        tracker
    }

    /// Adds a warning.
    pub fn add_deprecation(&mut self, warning: DeprecationWarning)
        ensures
            final(self).warnings() == old(self).warnings().push(warning),
    {
        self.warnings.push(warning);
    }

    /// Is `feature` deprecated?
    pub fn is_deprecated(&self, feature: &str) -> (r: bool)
        ensures
            r == names_feature(self.warnings(), feature@),
    {
        let mut i: usize = 0;
        while i < self.warnings.len()
            invariant
                i <= self.warnings@.len(),
                forall|j: int| 0 <= j < i ==> #[trigger] self.warnings@[j].feature@ != feature@,
            decreases self.warnings@.len() - i,
        {
            if str_eq(self.warnings[i].feature.as_str(), feature) {
                return true;
            }
            i = i + 1;
        }
        false
    }

    /// All warnings, in the order they were added.
    pub fn get_warnings(&self) -> (r: Vec<DeprecationWarning>)
        ensures
            r@ == self.warnings(),
    {
        let mut out: Vec<DeprecationWarning> = Vec::new();
        let mut i: usize = 0;
        while i < self.warnings.len()
            invariant
                i <= self.warnings@.len(),
                out@ == self.warnings@.take(i as int),
            decreases self.warnings@.len() - i,
        {
            out.push(copy_warning(&self.warnings[i]));
            assert(self.warnings@.take(i + 1) =~= self.warnings@.take(i as int).push(self.warnings@[i as int]));
            i = i + 1;
        }
        assert(self.warnings@.take(self.warnings@.len() as int) =~= self.warnings@);
        out
    }
}

/// The TypeScript definitions of the API.
pub const TYPESCRIPT_DEFINITIONS: &'static str = r#"// Auto-generated TypeScript definitions for GPU Charts API

export interface GpuChartsApi {
    version(): ApiVersion;
    initialize(): Promise<void>;
    createChart(config: ChartConfiguration): Promise<string>;
    loadChartData(chartId: string, source: DataSource, metadata: BufferMetadata): Promise<string>;
    updateViewport(chartId: string, viewport: Viewport): void;
    renderChart(chartId: string, canvas: HTMLCanvasElement): void;
    deleteChart(chartId: string): Promise<void>;
    getChartInfo(chartId: string): ChartInfo | null;
    listCharts(): ChartInfo[];
    handleResize(width: number, height: number): void;
    shutdown(): Promise<void>;
}

export interface ApiVersion {
    major: number;
    minor: number;
    patch: number;
}

export interface ChartConfiguration {
    chartType: ChartType;
    visualConfig: VisualConfig;
    overlays: OverlayConfig[];
}

export enum ChartType {
    Line = "Line",
    Scatter = "Scatter",
    Heatmap = "Heatmap",
    ThreeD = "ThreeD",
}

export interface VisualConfig {
    backgroundColor: [number, number, number, number];
    gridColor: [number, number, number, number];
    textColor: [number, number, number, number];
    marginPercent: number;
    showGrid: boolean;
    showAxes: boolean;
}

export interface OverlayConfig {
    overlayType: string;
    renderLocation: RenderLocation;
}

export enum RenderLocation {
    AbovePlot = "AbovePlot",
    BelowPlot = "BelowPlot",
}

export interface DataSource {
    type: "Http" | "WebSocket" | "File";
    url?: string;
    path?: string;
}

export interface BufferMetadata {
    rowCount: number;
    columnCount: number;
    timeRange: [number, number];
    valueRange: [number, number];
}

export interface Viewport {
    xMin: number;
    xMax: number;
    yMin: number;
    yMax: number;
}

export interface ChartInfo {
    id: string;
    chartType: ChartType;
    dataCount: number;
    viewport: Viewport;
}

export interface PerformanceMetrics {
    fps: number;
    frameTime: number;
    gpuTime: number;
    cpuTime: number;
}
"#;

/// Generates the TypeScript definitions of the API.
pub struct TypeScriptGenerator;

impl TypeScriptGenerator {
    /// The TypeScript definitions for the API.
    pub fn generate() -> (r: String)
        ensures
            r@ == TYPESCRIPT_DEFINITIONS@,
    {
        String::from_str(TYPESCRIPT_DEFINITIONS)
    }
}

/// The OpenAPI 3.0 description of the HTTP API, as JSON text.
pub const OPENAPI_DOCUMENT: &'static str = r##"{
            "openapi": "3.0.0",
            "info": {
                "title": "GPU Charts API",
                "version": "1.0.0",
                "description": "High-performance GPU-accelerated charting library"
            },
            "servers": [
                {
                    "url": "https://api.gpucharts.io/v1",
                    "description": "Production server"
                }
            ],
            "paths": {
                "/charts": {
                    "post": {
                        "summary": "Create a new chart",
                        "operationId": "createChart",
                        "requestBody": {
                            "required": true,
                            "content": {
                                "application/json": {
                                    "schema": {
                                        "$ref": "#/components/schemas/ChartConfiguration"
                                    }
                                }
                            }
                        },
                        "responses": {
                            "201": {
                                "description": "Chart created successfully",
                                "content": {
                                    "application/json": {
                                        "schema": {
                                            "$ref": "#/components/schemas/ChartHandle"
                                        }
                                    }
                                }
                            }
                        }
                    },
                    "get": {
                        "summary": "List all charts",
                        "operationId": "listCharts",
                        "responses": {
                            "200": {
                                "description": "List of charts",
                                "content": {
                                    "application/json": {
                                        "schema": {
                                            "type": "array",
                                            "items": {
                                                "$ref": "#/components/schemas/ChartInfo"
                                            }
                                        }
                                    }
                                }
                            }
                        }
                    }
                },
                "/charts/{chartId}": {
                    "get": {
                        "summary": "Get chart information",
                        "operationId": "getChart",
                        "parameters": [
                            {
                                "name": "chartId",
                                "in": "path",
                                "required": true,
                                "schema": {
                                    "type": "string",
                                    "format": "uuid"
                                }
                            }
                        ],
                        "responses": {
                            "200": {
                                "description": "Chart information",
                                "content": {
                                    "application/json": {
                                        "schema": {
                                            "$ref": "#/components/schemas/ChartInfo"
                                        }
                                    }
                                }
                            }
                        }
                    },
                    "delete": {
                        "summary": "Delete a chart",
                        "operationId": "deleteChart",
                        "parameters": [
                            {
                                "name": "chartId",
                                "in": "path",
                                "required": true,
                                "schema": {
                                    "type": "string",
                                    "format": "uuid"
                                }
                            }
                        ],
                        "responses": {
                            "204": {
                                "description": "Chart deleted successfully"
                            }
                        }
                    }
                },
                "/charts/{chartId}/data": {
                    "post": {
                        "summary": "Load data into a chart",
                        "operationId": "loadChartData",
                        "parameters": [
                            {
                                "name": "chartId",
                                "in": "path",
                                "required": true,
                                "schema": {
                                    "type": "string",
                                    "format": "uuid"
                                }
                            }
                        ],
                        "requestBody": {
                            "required": true,
                            "content": {
                                "application/json": {
                                    "schema": {
                                        "$ref": "#/components/schemas/DataLoadRequest"
                                    }
                                }
                            }
                        },
                        "responses": {
                            "201": {
                                "description": "Data loaded successfully",
                                "content": {
                                    "application/json": {
                                        "schema": {
                                            "type": "object",
                                            "properties": {
                                                "dataId": {
                                                    "type": "string",
                                                    "format": "uuid"
                                                }
                                            }
                                        }
                                    }
                                }
                            }
                        }
                    }
                },
                "/charts/{chartId}/viewport": {
                    "put": {
                        "summary": "Update chart viewport",
                        "operationId": "updateViewport",
                        "parameters": [
                            {
                                "name": "chartId",
                                "in": "path",
                                "required": true,
                                "schema": {
                                    "type": "string",
                                    "format": "uuid"
                                }
                            }
                        ],
                        "requestBody": {
                            "required": true,
                            "content": {
                                "application/json": {
                                    "schema": {
                                        "$ref": "#/components/schemas/Viewport"
                                    }
                                }
                            }
                        },
                        "responses": {
                            "200": {
                                "description": "Viewport updated successfully"
                            }
                        }
                    }
                }
            },
            "components": {
                "schemas": {
                    "ChartConfiguration": {
                        "type": "object",
                        "required": ["chartType"],
                        "properties": {
                            "chartType": {
                                "type": "string",
                                "enum": ["Line", "Scatter", "Heatmap", "ThreeD"]
                            },
                            "visualConfig": {
                                "$ref": "#/components/schemas/VisualConfig"
                            },
                            "overlays": {
                                "type": "array",
                                "items": {
                                    "$ref": "#/components/schemas/OverlayConfig"
                                }
                            }
                        }
                    },
                    "VisualConfig": {
                        "type": "object",
                        "properties": {
                            "backgroundColor": {
                                "type": "array",
                                "items": {
                                    "type": "number"
                                },
                                "minItems": 4,
                                "maxItems": 4
                            },
                            "gridColor": {
                                "type": "array",
                                "items": {
                                    "type": "number"
                                },
                                "minItems": 4,
                                "maxItems": 4
                            },
                            "textColor": {
                                "type": "array",
                                "items": {
                                    "type": "number"
                                },
                                "minItems": 4,
                                "maxItems": 4
                            },
                            "marginPercent": {
                                "type": "number",
                                "minimum": 0,
                                "maximum": 1
                            },
                            "showGrid": {
                                "type": "boolean"
                            },
                            "showAxes": {
                                "type": "boolean"
                            }
                        }
                    },
                    "OverlayConfig": {
                        "type": "object",
                        "required": ["overlayType", "renderLocation"],
                        "properties": {
                            "overlayType": {
                                "type": "string"
                            },
                            "renderLocation": {
                                "type": "string",
                                "enum": ["AbovePlot", "BelowPlot"]
                            }
                        }
                    },
                    "ChartHandle": {
                        "type": "object",
                        "properties": {
                            "id": {
                                "type": "string",
                                "format": "uuid"
                            }
                        }
                    },
                    "ChartInfo": {
                        "type": "object",
                        "properties": {
                            "id": {
                                "type": "string",
                                "format": "uuid"
                            },
                            "chartType": {
                                "type": "string"
                            },
                            "dataCount": {
                                "type": "integer"
                            },
                            "viewport": {
                                "$ref": "#/components/schemas/Viewport"
                            }
                        }
                    },
                    "DataLoadRequest": {
                        "type": "object",
                        "required": ["source", "metadata"],
                        "properties": {
                            "source": {
                                "$ref": "#/components/schemas/DataSource"
                            },
                            "metadata": {
                                "$ref": "#/components/schemas/BufferMetadata"
                            }
                        }
                    },
                    "DataSource": {
                        "type": "object",
                        "required": ["type"],
                        "properties": {
                            "type": {
                                "type": "string",
                                "enum": ["Http", "WebSocket", "File"]
                            },
                            "url": {
                                "type": "string",
                                "format": "uri"
                            },
                            "path": {
                                "type": "string"
                            }
                        }
                    },
                    "BufferMetadata": {
                        "type": "object",
                        "required": ["rowCount", "columnCount", "timeRange", "valueRange"],
                        "properties": {
                            "rowCount": {
                                "type": "integer",
                                "minimum": 0
                            },
                            "columnCount": {
                                "type": "integer",
                                "minimum": 1
                            },
                            "timeRange": {
                                "type": "array",
                                "items": {
                                    "type": "number"
                                },
                                "minItems": 2,
                                "maxItems": 2
                            },
                            "valueRange": {
                                "type": "array",
                                "items": {
                                    "type": "number"
                                },
                                "minItems": 2,
                                "maxItems": 2
                            }
                        }
                    },
                    "Viewport": {
                        "type": "object",
                        "required": ["xMin", "xMax", "yMin", "yMax"],
                        "properties": {
                            "xMin": {
                                "type": "number"
                            },
                            "xMax": {
                                "type": "number"
                            },
                            "yMin": {
                                "type": "number"
                            },
                            "yMax": {
                                "type": "number"
                            }
                        }
                    }
                }
            }
        }"##;

/// Describes the HTTP API in OpenAPI 3.0.
pub struct OpenApiGenerator;

impl OpenApiGenerator {
    /// The OpenAPI 3.0 description of the API, as JSON text.
    pub fn document() -> (r: String)
        ensures
            r@ == OPENAPI_DOCUMENT@,
    {
        String::from_str(OPENAPI_DOCUMENT)
    }
}

} // verus!
