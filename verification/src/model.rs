use vstd::prelude::*;

verus! {

/// The image format `d2` renders to.
#[derive(Debug, Clone, Copy, PartialEq, Eq, Structural)]
pub enum D2OutputFormat {
    Svg,
    Png,
}

/// The file extension of a format.
pub open spec fn format_extension(format: D2OutputFormat) -> Seq<char> {
    match format {
        D2OutputFormat::Svg => seq!['s', 'v', 'g'],
        D2OutputFormat::Png => seq!['p', 'n', 'g'],
    }
}

impl D2OutputFormat {
    /// The file extension for this format (`svg` or `png`).
    pub fn extension(self) -> (r: &'static str)
        ensures
            r@ == format_extension(self),
    {
        match self {
            D2OutputFormat::Svg => {
                let r = "svg";
                proof {
                    reveal_strlit("svg");
                }
                r
            },
            D2OutputFormat::Png => {
                let r = "png";
                proof {
                    reveal_strlit("png");
                }
                r
            },
        }
    }

    /// The value `d2` takes for `--stdout-format`: the extension itself.
    pub fn cli_value(self) -> (r: &'static str)
        ensures
            r@ == format_extension(self),
    {
        self.extension()
    }
}

/// Whether `d2` could be run.
#[derive(Debug, Clone, Copy, PartialEq, Eq, Structural)]
pub enum D2BackendStatus {
    Ready,
    Unavailable,
}

/// How the server treats `http://` and `https://` references in source.
#[derive(Debug, Clone, Copy, PartialEq, Eq, Structural)]
pub enum RemoteAssetPolicy {
    BlockedUnlessExplicitlyAllowed,
}

/// Whether `d2 validate` accepted the source.
#[derive(Debug, Clone, Copy, PartialEq, Eq, Structural)]
pub enum D2ValidationStatus {
    Valid,
    Invalid,
}

/// The outcome of a successful format call.
#[derive(Debug, Clone, Copy, PartialEq, Eq, Structural)]
pub enum D2FormatStatus {
    Formatted,
}

/// The outcome of a successful render call.
#[derive(Debug, Clone, Copy, PartialEq, Eq, Structural)]
pub enum D2RenderStatus {
    Rendered,
}

/// Readiness of the server: whether `d2` answers, and the limits in force.
#[derive(Debug, Clone)]
pub struct D2StatusReport {
    pub status: D2BackendStatus,
    pub d2_binary: String,
    pub d2_version: Option<String>,
    pub workdir: String,
    pub max_source_bytes: i64,
    pub max_render_bytes: i64,
    pub default_timeout_seconds: i64,
    pub max_timeout_seconds: i64,
    pub supported_output_formats: Vec<D2OutputFormat>,
    pub remote_assets_default: RemoteAssetPolicy,
    pub reads_arbitrary_files: bool,
    pub writes_outside_workdir: bool,
}

/// A request to check D2 source.
#[derive(Debug, Clone)]
pub struct D2ValidateArgs {
    pub source: String,
    pub allow_remote_assets: bool,
    pub timeout_seconds: Option<u64>,
}

/// The answer to a validate request.
#[derive(Debug, Clone)]
pub struct D2ValidateReport {
    pub status: D2ValidationStatus,
    pub source_bytes: i64,
    pub source_sha256: String,
    pub elapsed_ms: i64,
    pub d2_version: Option<String>,
    pub diagnostics: String,
}

/// A request to format D2 source.
#[derive(Debug, Clone)]
pub struct D2FormatArgs {
    pub source: String,
    pub allow_remote_assets: bool,
    pub timeout_seconds: Option<u64>,
}

/// The answer to a format request.
#[derive(Debug, Clone)]
pub struct D2FormatReport {
    pub status: D2FormatStatus,
    pub source_bytes: i64,
    pub formatted_bytes: i64,
    pub changed: bool,
    pub formatted_source: String,
    pub formatted_sha256: String,
    pub elapsed_ms: i64,
    pub d2_version: Option<String>,
    pub diagnostics: String,
}

/// A request to render D2 source to a file.
#[derive(Debug, Clone)]
pub struct D2RenderArgs {
    pub source: String,
    pub format: D2OutputFormat,
    pub output_path: Option<String>,
    pub overwrite: bool,
    pub inline_svg: bool,
    pub allow_remote_assets: bool,
    pub theme: Option<i64>,
    pub dark_theme: Option<i64>,
    pub layout: Option<String>,
    pub sketch: bool,
    pub pad: Option<i64>,
    pub timeout_seconds: Option<u64>,
}

/// The answer to a render request.
#[derive(Debug, Clone)]
pub struct D2RenderReport {
    pub status: D2RenderStatus,
    pub format: D2OutputFormat,
    pub source_bytes: i64,
    pub source_sha256: String,
    pub output_path: String,
    pub output_bytes: i64,
    pub output_sha256: String,
    pub inline_svg: Option<String>,
    pub elapsed_ms: i64,
    pub d2_version: Option<String>,
    pub diagnostics: String,
}

} // verus!
