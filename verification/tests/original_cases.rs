use d2_mcp::config::D2Config;
use d2_mcp::model::D2OutputFormat;
use d2_mcp::paths::resolve_output_path;
use d2_mcp::policy::validate_source;
use std::path::Path;

fn default_config() -> D2Config {
    D2Config::from_env_values(None, None, None, None, None)
}

#[test]
fn rejects_empty_source() {
    let config = default_config();
    let err = validate_source("", false, &config).expect_err("empty source rejected");
    assert!(err.message().contains("source is empty"));
}

#[test]
fn rejects_remote_assets_by_default() {
    let config = default_config();
    let err = validate_source("x: {icon: https://example.com/a.svg}", false, &config)
        .expect_err("remote asset rejected");
    assert!(err.message().contains("allow_remote_assets"));
}

#[test]
fn rejects_parent_dir_output_path() {
    let err = resolve_output_path(
        b"/tmp/work",
        Some("../escape.svg"),
        D2OutputFormat::Svg,
        "0123456789abcdef",
    )
    .expect_err("parent dir rejected");
    assert!(err.message().contains("inside D2_MCP_WORKDIR"));
}

#[test]
fn creates_default_output_path_inside_workdir() {
    let path = resolve_output_path(
        b"/tmp/work",
        None,
        D2OutputFormat::Png,
        "0123456789abcdef9999",
    )
    .expect("default output path");
    let path = std::str::from_utf8(&path).expect("a UTF-8 working directory gives a UTF-8 path");
    assert_eq!(Path::new(path), Path::new("/tmp/work/.d2-mcp-output/0123456789abcdef.png"));
}
