use d2_mcp::command::{
    d2_version, diagnostics_from, truncate_diagnostic, CommandArg, CommandOutput,
    CommandSpec,
};
use d2_mcp::config::{D2Config, MAX_DIAGNOSTIC_BYTES};
use d2_mcp::error::D2McpError;
use d2_mcp::hash::sha256_hex;
use d2_mcp::model::{
    D2BackendStatus, D2FormatArgs, D2FormatReport, D2FormatStatus, D2OutputFormat, D2RenderArgs,
    D2RenderReport, D2RenderStatus, D2ValidateArgs, D2ValidateReport, D2ValidationStatus,
    RemoteAssetPolicy,
};
use d2_mcp::render::{render_d2, render_d2_command, RenderEvent};
use d2_mcp::tools::{d2_status, format_d2, validate_d2, FormatEvent, ToolAction, ValidateEvent};

fn text(s: &str) -> CommandArg {
    CommandArg::Text(s.to_string())
}

fn output(ok: bool, stdout: &[u8], stderr: &[u8]) -> CommandOutput {
    CommandOutput { exit_success: ok, stdout: stdout.to_vec(), stderr: stderr.to_vec() }
}

fn config() -> D2Config {
    D2Config::from_env_values(None, Some(b"/tmp/work".to_vec()), None, None, None)
}

fn render_args(source: &str) -> D2RenderArgs {
    D2RenderArgs {
        source: source.to_string(),
        format: D2OutputFormat::Svg,
        output_path: None,
        overwrite: false,
        inline_svg: false,
        allow_remote_assets: false,
        theme: None,
        dark_theme: None,
        layout: None,
        sketch: false,
        pad: None,
        timeout_seconds: None,
    }
}

#[test]
fn command_spec_builders() {
    let c = CommandSpec::new("d2").arg("--version").input_file_arg().timeout(5);
    assert_eq!(c.program, "d2");
    assert_eq!(c.args, vec![text("--version"), CommandArg::InputFile]);
    assert_eq!(c.timeout_seconds, 5);
    assert_eq!(CommandSpec::new("x").timeout_seconds, 20);
}

#[test]
fn diagnostics_join_streams() {
    assert_eq!(diagnostics_from(&output(false, b"out", b"err")).unwrap(), "out\nerr");
    assert_eq!(diagnostics_from(&output(false, b"", b"err\n")).unwrap(), "err");
    assert_eq!(diagnostics_from(&output(true, b"  out  ", b"")).unwrap(), "out");
    assert_eq!(diagnostics_from(&output(true, b"", b"")).unwrap(), "");
    assert_eq!(diagnostics_from(&output(false, &[0xff], b"")).unwrap(), "\u{fffd}");
}

#[test]
fn long_diagnostics_are_cut() {
    let long = "a".repeat(MAX_DIAGNOSTIC_BYTES + 10);
    let cut = truncate_diagnostic(&long);
    assert_eq!(cut, format!("{}\n[truncated]", "a".repeat(MAX_DIAGNOSTIC_BYTES)));
    assert_eq!(truncate_diagnostic("  x  "), "x");
    let exactly = "b".repeat(MAX_DIAGNOSTIC_BYTES);
    assert_eq!(truncate_diagnostic(&exactly), exactly);
}

#[test]
fn law_diagnostics_bounded_on_values() {
    for len in [0, 10, MAX_DIAGNOSTIC_BYTES, MAX_DIAGNOSTIC_BYTES + 1, 3 * MAX_DIAGNOSTIC_BYTES] {
        let d = diagnostics_from(&output(false, "c".repeat(len).as_bytes(), b"")).unwrap();
        assert!(d.len() <= MAX_DIAGNOSTIC_BYTES + 12);
    }
}

#[test]
fn diagnostics_cut_inside_a_character_has_no_value() {
    // One ASCII byte, then two-byte characters: byte MAX_DIAGNOSTIC_BYTES falls inside one.
    let mut text = String::from("a");
    while text.len() <= MAX_DIAGNOSTIC_BYTES + 4 {
        text.push('é');
    }
    assert!(diagnostics_from(&output(false, text.as_bytes(), b"")).is_none());
}

#[test]
fn version_from_output() {
    assert_eq!(d2_version(&output(true, b"v0.7.1\n", b"")), Some("v0.7.1".to_string()));
    assert_eq!(d2_version(&output(false, b"v0.7.1\n", b"")), None);
    assert_eq!(d2_version(&output(true, b"  \n", b"")), None);
}

fn version_ok() -> Option<CommandOutput> {
    Some(output(true, b"v0.7.1\n", b""))
}

/// Drives a validate call through its steps with the given run outcomes,
/// returning every action taken.
fn drive_validate(
    args: &D2ValidateArgs,
    c: &D2Config,
    run: CommandOutput,
    elapsed_ms: u128,
    version_run: Option<CommandOutput>,
) -> Vec<ToolAction<D2ValidateReport>> {
    let mut trace = Vec::new();
    let a = validate_d2(args, c, ValidateEvent::Start);
    let go = matches!(a, ToolAction::WriteSource);
    trace.push(a);
    if !go {
        return trace;
    }
    let a = validate_d2(args, c, ValidateEvent::SourceWritten);
    let go = matches!(a, ToolAction::Run { .. });
    trace.push(a);
    if !go {
        return trace;
    }
    let a = validate_d2(args, c, ValidateEvent::RunFinished { output: run.clone() });
    let go = matches!(a, ToolAction::QueryVersion { .. });
    trace.push(a);
    if !go {
        return trace;
    }
    trace.push(validate_d2(args, c, ValidateEvent::VersionReported { output: run, elapsed_ms, version_run }));
    trace
}

fn drive_format(
    args: &D2FormatArgs,
    c: &D2Config,
    run: CommandOutput,
    formatted: &str,
    version_run: Option<CommandOutput>,
) -> Vec<ToolAction<D2FormatReport>> {
    let mut trace = Vec::new();
    let a = format_d2(args, c, FormatEvent::Start);
    let go = matches!(a, ToolAction::WriteSource);
    trace.push(a);
    if !go {
        return trace;
    }
    let a = format_d2(args, c, FormatEvent::SourceWritten);
    let go = matches!(a, ToolAction::Run { .. });
    trace.push(a);
    if !go {
        return trace;
    }
    let a = format_d2(args, c, FormatEvent::RunFinished { output: run.clone() });
    let go = matches!(a, ToolAction::ReadSourceFile);
    trace.push(a);
    if !go {
        return trace;
    }
    let a = format_d2(
        args,
        c,
        FormatEvent::FormattedRead { output: run.clone(), formatted: formatted.to_string() },
    );
    let go = matches!(a, ToolAction::QueryVersion { .. });
    trace.push(a);
    if !go {
        return trace;
    }
    trace.push(format_d2(
        args,
        c,
        FormatEvent::VersionReported {
            output: run,
            formatted: formatted.to_string(),
            elapsed_ms: 3,
            version_run,
        },
    ));
    trace
}

fn drive_render(
    args: &D2RenderArgs,
    c: &D2Config,
    exists: bool,
    run: CommandOutput,
    rendered: &[u8],
    version_run: Option<CommandOutput>,
) -> Vec<ToolAction<D2RenderReport>> {
    let mut trace = Vec::new();
    let a = render_d2(args, c, RenderEvent::Start);
    let go = matches!(a, ToolAction::WriteSource);
    trace.push(a);
    if !go {
        return trace;
    }
    let a = render_d2(args, c, RenderEvent::SourceWritten);
    let go = matches!(a, ToolAction::CheckTarget { .. });
    trace.push(a);
    if !go {
        return trace;
    }
    let a = render_d2(args, c, RenderEvent::TargetChecked { exists });
    let go = matches!(a, ToolAction::Run { .. });
    trace.push(a);
    if !go {
        return trace;
    }
    let a = render_d2(args, c, RenderEvent::RunFinished { output: run.clone() });
    let go = matches!(a, ToolAction::ReadOutput { .. });
    trace.push(a);
    if !go {
        return trace;
    }
    let a = render_d2(
        args,
        c,
        RenderEvent::OutputRead { output: run.clone(), rendered: rendered.to_vec() },
    );
    let go = matches!(a, ToolAction::QueryVersion { .. });
    trace.push(a);
    if !go {
        return trace;
    }
    trace.push(render_d2(
        args,
        c,
        RenderEvent::VersionReported {
            output: run,
            rendered: rendered.to_vec(),
            elapsed_ms: 5,
            version_run,
        },
    ));
    trace
}

fn ran_d2<R>(trace: &[ToolAction<R>]) -> bool {
    trace.iter().any(|a| matches!(a, ToolAction::Run { .. }))
}

fn invalid_input<R: std::fmt::Debug>(a: &ToolAction<R>) -> String {
    match a {
        ToolAction::Refuse(D2McpError::InvalidInput(m)) => m.clone(),
        other => panic!("unexpected {:?}", other),
    }
}

#[test]
fn status_report() {
    let c = config();
    let ready = d2_status(&c, version_ok());
    assert_eq!(ready.status, D2BackendStatus::Ready);
    assert_eq!(ready.d2_version, Some("v0.7.1".to_string()));
    assert_eq!(ready.d2_binary, "d2");
    assert_eq!(ready.workdir, "/tmp/work");
    assert_eq!(ready.max_source_bytes, 1048576);
    assert_eq!(ready.max_render_bytes, 16777216);
    assert_eq!(ready.default_timeout_seconds, 20);
    assert_eq!(ready.max_timeout_seconds, 120);
    assert_eq!(ready.supported_output_formats, vec![D2OutputFormat::Svg, D2OutputFormat::Png]);
    assert_eq!(ready.remote_assets_default, RemoteAssetPolicy::BlockedUnlessExplicitlyAllowed);
    assert!(!ready.reads_arbitrary_files);
    assert!(!ready.writes_outside_workdir);
    assert_eq!(d2_status(&c, None).status, D2BackendStatus::Unavailable);
    let failed = d2_status(&c, Some(output(false, b"v0.7.1", b"")));
    assert_eq!(failed.status, D2BackendStatus::Unavailable);
    assert_eq!(failed.d2_version, None);
    let blank = d2_status(&c, Some(output(true, b" \n", b"")));
    assert_eq!(blank.status, D2BackendStatus::Unavailable);
}

#[test]
fn validate_steps_and_report() {
    let c = config();
    let args = D2ValidateArgs {
        source: "a -> b".to_string(),
        allow_remote_assets: false,
        timeout_seconds: Some(7),
    };
    let trace = drive_validate(&args, &c, output(true, b"", b""), 12, Some(output(true, b"v1\n", b"")));
    assert_eq!(trace.len(), 4);
    match &trace[1] {
        ToolAction::Run { command, prepare_dir_for, flush_source_after } => {
            assert_eq!(command.program, "d2");
            assert_eq!(command.args, vec![text("validate"), CommandArg::InputFile]);
            assert_eq!(command.timeout_seconds, 7);
            assert!(prepare_dir_for.is_none());
            assert!(*flush_source_after);
        },
        other => panic!("unexpected {:?}", other),
    }
    match &trace[2] {
        ToolAction::QueryVersion { command } => {
            assert_eq!(command.args, vec![text("--version")]);
            assert_eq!(command.timeout_seconds, 5);
        },
        other => panic!("unexpected {:?}", other),
    }
    match &trace[3] {
        ToolAction::Finish(ok) => {
            assert_eq!(ok.status, D2ValidationStatus::Valid);
            assert_eq!(ok.source_bytes, 6);
            assert_eq!(ok.source_sha256, sha256_hex(b"a -> b"));
            assert_eq!(ok.elapsed_ms, 12);
            assert_eq!(ok.d2_version, Some("v1".to_string()));
            assert_eq!(ok.diagnostics, "");
        },
        other => panic!("unexpected {:?}", other),
    }

    let trace = drive_validate(&args, &c, output(false, b"", b"err: bad edge\n"), u128::MAX, None);
    match trace.last().unwrap() {
        ToolAction::Finish(bad) => {
            assert_eq!(bad.status, D2ValidationStatus::Invalid);
            assert_eq!(bad.diagnostics, "err: bad edge");
            assert_eq!(bad.elapsed_ms, i64::MAX);
            assert_eq!(bad.d2_version, None);
        },
        other => panic!("unexpected {:?}", other),
    }
}

#[test]
fn validate_refusals_run_nothing() {
    let c = config();
    let bad = D2ValidateArgs { source: "a -> b".to_string(), allow_remote_assets: false, timeout_seconds: Some(0) };
    let trace = drive_validate(&bad, &c, output(true, b"", b""), 1, None);
    assert_eq!(trace.len(), 1);
    assert_eq!(invalid_input(&trace[0]), "timeout_seconds must be between 1 and 120");
    let remote = D2ValidateArgs {
        source: "https://x".to_string(),
        allow_remote_assets: false,
        timeout_seconds: Some(0),
    };
    let trace = drive_validate(&remote, &c, output(true, b"", b""), 1, None);
    assert!(!ran_d2(&trace));
    assert!(invalid_input(&trace[0]).contains("allow_remote_assets"));
}

#[test]
fn format_steps_and_report() {
    let c = config();
    let args = D2FormatArgs { source: "a->b".to_string(), allow_remote_assets: false, timeout_seconds: None };
    let trace = drive_format(&args, &c, output(true, b"", b""), "a -> b\n", None);
    assert_eq!(trace.len(), 5);
    match &trace[1] {
        ToolAction::Run { command, prepare_dir_for, flush_source_after } => {
            assert_eq!(command.args, vec![text("fmt"), CommandArg::InputFile]);
            assert_eq!(command.timeout_seconds, 20);
            assert!(prepare_dir_for.is_none());
            assert!(!*flush_source_after);
        },
        other => panic!("unexpected {:?}", other),
    }
    match trace.last().unwrap() {
        ToolAction::Finish(r) => {
            assert_eq!(r.status, D2FormatStatus::Formatted);
            assert!(r.changed);
            assert_eq!(r.source_bytes, 4);
            assert_eq!(r.formatted_bytes, 7);
            assert_eq!(r.formatted_source, "a -> b\n");
            assert_eq!(r.formatted_sha256, sha256_hex(b"a -> b\n"));
            assert_eq!(r.elapsed_ms, 3);
        },
        other => panic!("unexpected {:?}", other),
    }
    let trace = drive_format(&args, &c, output(true, b"", b""), "a->b", version_ok());
    match trace.last().unwrap() {
        ToolAction::Finish(r) => {
            assert!(!r.changed);
            assert_eq!(r.d2_version, Some("v0.7.1".to_string()));
        },
        other => panic!("unexpected {:?}", other),
    }
}

#[test]
fn format_failure_and_refusal() {
    let c = config();
    let args = D2FormatArgs { source: "a->".to_string(), allow_remote_assets: false, timeout_seconds: None };
    let trace = drive_format(&args, &c, output(false, b"", b"boom\n"), "", None);
    assert_eq!(trace.len(), 3);
    match &trace[2] {
        ToolAction::Refuse(D2McpError::D2Failed(m)) => assert_eq!(m, "boom"),
        other => panic!("unexpected {:?}", other),
    }
    let bad = D2FormatArgs { source: "a -> b".to_string(), allow_remote_assets: false, timeout_seconds: Some(121) };
    let trace = drive_format(&bad, &c, output(true, b"", b""), "", None);
    assert_eq!(trace.len(), 1);
    assert_eq!(invalid_input(&trace[0]), "timeout_seconds must be between 1 and 120");
}

#[test]
fn uncuttable_diagnostics_have_no_answer() {
    let mut long = String::from("a");
    while long.len() <= MAX_DIAGNOSTIC_BYTES + 4 {
        long.push('é');
    }
    let c = config();
    let args = D2FormatArgs { source: "a".to_string(), allow_remote_assets: false, timeout_seconds: None };
    let trace = drive_format(&args, &c, output(false, long.as_bytes(), b""), "", None);
    assert!(matches!(trace.last().unwrap(), ToolAction::CannotCutDiagnostics));
    let v = D2ValidateArgs { source: "a".to_string(), allow_remote_assets: false, timeout_seconds: None };
    let trace = drive_validate(&v, &c, output(false, long.as_bytes(), b""), 1, None);
    assert_eq!(trace.len(), 3);
    assert!(matches!(trace[2], ToolAction::CannotCutDiagnostics));
}

#[test]
fn render_command_with_options() {
    let c = config();
    let mut args = render_args("a -> b");
    args.output_path = Some("architecture/current.svg".to_string());
    args.theme = Some(300);
    args.dark_theme = Some(-1);
    args.layout = Some("elk".to_string());
    args.sketch = true;
    args.pad = Some(100);
    args.timeout_seconds = Some(30);
    let expected = vec![
        CommandArg::InputFile,
        CommandArg::Path(b"/tmp/work/architecture/current.svg".to_vec()),
        text("--stdout-format"),
        text("svg"),
        text("--timeout"),
        text("30"),
        text("--theme"),
        text("300"),
        text("--dark-theme"),
        text("-1"),
        text("--layout"),
        text("elk"),
        text("--sketch"),
        text("--pad"),
        text("100"),
    ];
    let plan = render_d2_command(&args, &c).unwrap();
    assert_eq!(plan.output_path, b"/tmp/work/architecture/current.svg".to_vec());
    assert_eq!(plan.source_sha256, sha256_hex(b"a -> b"));
    assert_eq!(plan.command.program, "d2");
    assert_eq!(plan.command.timeout_seconds, 32);
    assert_eq!(plan.command.args, expected);

    match render_d2(&args, &c, RenderEvent::TargetChecked { exists: false }) {
        ToolAction::Run { command, prepare_dir_for, flush_source_after } => {
            assert_eq!(command.program, "d2");
            assert_eq!(command.args, expected);
            assert_eq!(command.timeout_seconds, 32);
            assert_eq!(prepare_dir_for, Some(b"/tmp/work/architecture/current.svg".to_vec()));
            assert!(!flush_source_after);
        },
        other => panic!("unexpected {:?}", other),
    }
}

#[test]
fn render_default_path_and_escape() {
    let c = config();
    let mut args = render_args("client -> d2_mcp -> svg");
    args.format = D2OutputFormat::Png;
    let sha = sha256_hex(args.source.as_bytes());
    match render_d2(&args, &c, RenderEvent::SourceWritten) {
        ToolAction::CheckTarget { path } => {
            assert_eq!(path, format!("/tmp/work/.d2-mcp-output/{}.png", &sha[..16]).into_bytes())
        },
        other => panic!("unexpected {:?}", other),
    }
    let plan = render_d2_command(&args, &c).unwrap();
    assert_eq!(plan.command.args[3], text("png"));

    args.output_path = Some("../escape.svg".to_string());
    assert!(matches!(render_d2(&args, &c, RenderEvent::Start), ToolAction::WriteSource));
    let trace = drive_render(&args, &c, false, output(true, b"", b""), b"", None);
    assert_eq!(trace.len(), 2);
    assert!(!ran_d2(&trace));
    assert_eq!(
        invalid_input(&trace[1]),
        "output_path must be relative and stay inside D2_MCP_WORKDIR"
    );
    args.output_path = None;
    args.theme = Some(999);
    let trace = drive_render(&args, &c, false, output(true, b"", b""), b"", None);
    assert_eq!(trace.len(), 1);
    assert!(matches!(trace[0], ToolAction::Refuse(D2McpError::InvalidInput(_))));
}

#[test]
fn render_refuses_path_climbing_out_of_workdir() {
    let c = config();
    let mut args = render_args("a -> b");
    args.output_path = Some("architecture/../../diagram.svg".to_string());
    let trace = drive_render(&args, &c, false, output(true, b"", b""), b"", None);
    assert!(!ran_d2(&trace));
    assert!(invalid_input(trace.last().unwrap()).contains("inside D2_MCP_WORKDIR"));
}

#[test]
fn render_refuses_existing_output_without_overwrite() {
    let c = config();
    let mut args = render_args("a -> b");
    args.output_path = Some("a.svg".to_string());
    let trace = drive_render(&args, &c, true, output(true, b"", b""), b"<svg/>", None);
    assert_eq!(trace.len(), 3);
    assert!(!ran_d2(&trace));
    assert_eq!(
        invalid_input(&trace[2]),
        "output path already exists: a.svg; pass overwrite=true or choose a different relative output_path"
    );
    args.overwrite = true;
    let trace = drive_render(&args, &c, true, output(true, b"", b""), b"<svg/>", None);
    assert!(ran_d2(&trace));
    assert!(matches!(trace.last().unwrap(), ToolAction::Finish(_)));
}

#[test]
fn render_removes_and_refuses_oversized_output() {
    let c = D2Config::from_env_values(
        None,
        Some(b"/tmp/work".to_vec()),
        None,
        None,
        Some("10".to_string()),
    );
    let mut args = render_args("a -> b");
    args.output_path = Some("big.svg".to_string());
    let trace = drive_render(&args, &c, false, output(true, b"", b""), b"0123456789A", None);
    assert_eq!(trace.len(), 5);
    match &trace[4] {
        ToolAction::RemoveAndRefuse { path, error: D2McpError::InvalidInput(m) } => {
            assert_eq!(*path, b"/tmp/work/big.svg".to_vec());
            assert_eq!(m, "rendered output is 11 bytes, limit is 10 bytes");
        },
        other => panic!("unexpected {:?}", other),
    }
    let trace = drive_render(&args, &c, false, output(true, b"", b""), b"0123456789", None);
    match trace.last().unwrap() {
        ToolAction::Finish(r) => assert_eq!(r.output_bytes, 10),
        other => panic!("unexpected {:?}", other),
    }
}

#[test]
fn render_failed_run_is_d2_failed() {
    let c = config();
    let args = render_args("a -> b");
    let trace = drive_render(&args, &c, false, output(false, b"out", b"err"), b"", None);
    assert_eq!(trace.len(), 4);
    match &trace[3] {
        ToolAction::Refuse(D2McpError::D2Failed(m)) => assert_eq!(m, "out\nerr"),
        other => panic!("unexpected {:?}", other),
    }
}

#[test]
fn render_into_working_directory_that_is_not_utf8() {
    let c = D2Config::from_env_values(None, Some(b"/w\xffrk".to_vec()), None, None, None);
    let mut args = render_args("a -> b");
    args.output_path = Some("out/a.svg".to_string());
    match render_d2(&args, &c, RenderEvent::SourceWritten) {
        ToolAction::CheckTarget { path } => assert_eq!(path, b"/w\xffrk/out/a.svg".to_vec()),
        other => panic!("unexpected {:?}", other),
    }
    match render_d2(&args, &c, RenderEvent::TargetChecked { exists: false }) {
        ToolAction::Run { command, .. } => {
            assert_eq!(command.args[1], CommandArg::Path(b"/w\xffrk/out/a.svg".to_vec()))
        },
        other => panic!("unexpected {:?}", other),
    }
    let trace = drive_render(&args, &c, true, output(true, b"", b""), b"<svg/>", None);
    assert_eq!(trace.len(), 3);
    assert_eq!(
        invalid_input(&trace[2]),
        "output path already exists: out/a.svg; pass overwrite=true or choose a different relative output_path"
    );
    let trace = drive_render(&args, &c, false, output(false, b"", b"bad"), b"", None);
    match trace.last().unwrap() {
        ToolAction::Refuse(D2McpError::D2Failed(m)) => assert_eq!(m, "bad"),
        other => panic!("unexpected {:?}", other),
    }
    let trace = drive_render(&args, &c, false, output(true, b"", b""), b"<svg/>", None);
    match trace.last().unwrap() {
        ToolAction::Finish(r) => assert_eq!(r.output_path, "out/a.svg"),
        other => panic!("unexpected {:?}", other),
    }
    assert_eq!(d2_status(&c, None).workdir, "/w\u{fffd}rk");
}

#[test]
fn render_report_and_inline_svg() {
    let c = config();
    let mut args = render_args("client -> d2_mcp -> svg");
    args.output_path = Some(".d2-mcp-test/smoke.svg".to_string());
    args.overwrite = true;
    args.inline_svg = true;
    let svg = b"<svg xmlns=\"http://www.w3.org/2000/svg\"></svg>";
    let trace = drive_render(&args, &c, true, output(true, b"", b"ok\n"), svg, version_ok());
    assert_eq!(trace.len(), 6);
    match trace.last().unwrap() {
        ToolAction::Finish(report) => {
            assert_eq!(report.status, D2RenderStatus::Rendered);
            assert_eq!(report.format, D2OutputFormat::Svg);
            assert_eq!(report.output_path, ".d2-mcp-test/smoke.svg");
            assert_eq!(report.output_bytes, svg.len() as i64);
            assert_eq!(report.output_sha256, sha256_hex(svg));
            assert_eq!(report.source_bytes, args.source.len() as i64);
            assert_eq!(report.source_sha256, sha256_hex(args.source.as_bytes()));
            assert!(report.inline_svg.as_ref().unwrap().contains("<svg"));
            assert_eq!(report.elapsed_ms, 5);
            assert_eq!(report.d2_version, Some("v0.7.1".to_string()));
            assert_eq!(report.diagnostics, "ok");
        },
        other => panic!("unexpected {:?}", other),
    }

    let trace = drive_render(&args, &c, true, output(true, b"", b""), &[0xff, 0xfe], None);
    assert_eq!(trace.len(), 5);
    assert!(invalid_input(&trace[4]).starts_with("rendered SVG is not valid UTF-8: "));

    args.format = D2OutputFormat::Png;
    let trace = drive_render(&args, &c, true, output(true, b"", b""), &[0xff, 0xfe], None);
    match trace.last().unwrap() {
        ToolAction::Finish(png) => assert!(png.inline_svg.is_none()),
        other => panic!("unexpected {:?}", other),
    }
}

#[test]
fn render_default_path_report() {
    let c = config();
    let args = render_args("x -> y");
    let sha = sha256_hex(b"x -> y");
    let trace = drive_render(&args, &c, false, output(true, b"", b""), b"<svg/>", None);
    match trace.last().unwrap() {
        ToolAction::Finish(r) => {
            assert_eq!(r.output_path, format!(".d2-mcp-output/{}.svg", &sha[..16]));
            assert_eq!(r.source_sha256, sha);
        },
        other => panic!("unexpected {:?}", other),
    }
}

#[test]
fn error_messages() {
    assert_eq!(D2McpError::InvalidInput("x".to_string()).message(), "invalid input: x");
    assert_eq!(D2McpError::Backend("x".to_string()).message(), "backend error: x");
    assert_eq!(D2McpError::D2Failed("x".to_string()).message(), "d2 failed: x");
    assert_eq!(D2McpError::Timeout("x".to_string()).message(), "timeout: x");
    let io = D2McpError::from(std::io::Error::new(std::io::ErrorKind::Other, "disk full"));
    assert_eq!(io.message(), "io error: disk full");
}

#[test]
fn run_failures_and_version_command() {
    let v = d2_mcp::command::version_command("/opt/d2");
    assert_eq!(v.program, "/opt/d2");
    assert_eq!(v.args, vec![text("--version")]);
    assert_eq!(v.timeout_seconds, 5);
    match d2_mcp::command::timeout_error(20) {
        D2McpError::Timeout(m) => assert_eq!(m, "d2 exceeded 20s timeout"),
        other => panic!("unexpected {:?}", other),
    }
    let err = std::io::Error::new(std::io::ErrorKind::NotFound, "no such file");
    match d2_mcp::command::start_error("d2", &err) {
        D2McpError::Backend(m) => assert_eq!(m, "failed to start d2: no such file"),
        other => panic!("unexpected {:?}", other),
    }
}

#[test]
fn law_default_output_path_accepted_on_values() {
    let c = config();
    for source in ["a", "x -> y", "ü -> ß", "shape: circle"] {
        let plan = render_d2_command(&render_args(source), &c).unwrap();
        let sha = sha256_hex(source.as_bytes());
        assert_eq!(plan.output_path, format!("/tmp/work/.d2-mcp-output/{}.svg", &sha[..16]).into_bytes());
    }
}

#[test]
fn law_render_output_inside_workdir_on_values() {
    let c = config();
    for rel in ["a.svg", "deep/er/b.svg", "./c.svg", "x/./y.svg"] {
        let mut args = render_args("a -> b");
        args.output_path = Some(rel.to_string());
        let plan = render_d2_command(&args, &c).unwrap();
        let out = String::from_utf8(plan.output_path).unwrap();
        assert!(out.starts_with("/tmp/work/"));
        assert!(!out.split('/').any(|component| component == ".."));
    }
}

#[test]
fn law_tools_share_source_rules_on_values() {
    let c = config();
    for (source, message) in [("", "source is empty"), ("http://x", "source contains http:// or https:// references; pass allow_remote_assets=true only when remote asset fetches are expected")] {
        let v = D2ValidateArgs { source: source.to_string(), allow_remote_assets: false, timeout_seconds: Some(0) };
        let f = D2FormatArgs { source: source.to_string(), allow_remote_assets: false, timeout_seconds: Some(0) };
        let mut r = render_args(source);
        r.theme = Some(-5);
        assert_eq!(invalid_input(&validate_d2(&v, &c, ValidateEvent::Start)), message);
        assert_eq!(invalid_input(&format_d2(&f, &c, FormatEvent::Start)), message);
        assert_eq!(invalid_input(&render_d2(&r, &c, RenderEvent::Start)), message);
    }
}

#[test]
fn law_default_output_path_displayed_on_values() {
    for workdir in [&b"/tmp/work"[..], b"/tmp/work/", b"rel/dir", b"/", b"/w\xffrk"] {
        let c = D2Config::from_env_values(None, Some(workdir.to_vec()), None, None, None);
        for source in ["a", "ü -> ß"] {
            let mut args = render_args(source);
            args.format = D2OutputFormat::Png;
            let sha = sha256_hex(source.as_bytes());
            let trace = drive_render(&args, &c, false, output(true, b"", b""), b"png", None);
            match trace.last().unwrap() {
                ToolAction::Finish(r) => {
                    assert_eq!(r.output_path, format!(".d2-mcp-output/{}.png", &sha[..16]))
                },
                other => panic!("unexpected {:?}", other),
            }
        }
    }
}
