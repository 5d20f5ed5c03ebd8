//! Verified core of an MCP server that validates, formats and renders D2
//! diagrams through the `d2` command line tool.
//!
//! The library holds every decision the server makes: the limits on source
//! text, the remote asset policy, the render option ranges, the output path
//! policy that keeps rendered files inside the working directory, the exact
//! argument lists handed to `d2`, and the reports built from what `d2` printed.
//! Running processes, temporary files and the MCP transport live outside it.

pub mod call_laws;
pub mod command;
pub mod config;
pub mod error;
pub mod hash;
pub mod laws;
pub mod model;
pub mod paths;
pub mod policy;
pub mod render;
pub mod text;
pub mod tools;

pub use config::D2Config;
pub use error::D2McpError;
pub use model::{
    D2BackendStatus, D2FormatArgs, D2FormatReport, D2FormatStatus, D2OutputFormat, D2RenderArgs,
    D2RenderReport, D2RenderStatus, D2StatusReport, D2ValidateArgs, D2ValidateReport,
    D2ValidationStatus, RemoteAssetPolicy,
};
pub use render::render_d2;
pub use tools::{d2_status, format_d2, validate_d2};


