use vstd::prelude::*;
use vstd::string::to_string_from_display_ensures;
use vstd::utf8::{decode_utf8, encode_utf8, valid_utf8};

use crate::command::{
    args_view, diagnostics_from, diagnostics_text, same_text, version_command, ArgView,
    CommandOutput, CommandSpec,
};
use crate::config::{D2Config, MAX_INLINE_SVG_BYTES, MAX_TIMEOUT_SECONDS};
use crate::error::D2McpError;
use crate::hash::{sha256, sha256_hex};
use crate::model::{format_extension, D2OutputFormat, D2RenderArgs, D2RenderReport, D2RenderStatus};
use crate::paths::{
    displayed_path, join_path, relative_display, relative_path_refusal, requested_output_path,
    resolve_output_path,
};
use crate::policy::{
    opt_str, render_args_refusal, requested_timeout, source_refusal, timeout_from_args,
    timeout_message, validate_render_args, validate_source,
};
use crate::text::{
    decimal, hex_lower, i64_text, lemma_ascii_char_boundary, signed_decimal, u64_text, utf8_lossy,
};
use crate::tools::{
    check_d2_success, fails_with_diagnostics, is_version_command, refuses_with, saturating_i64,
    text_digest, timeout_refused, u128_to_i64, usize_to_i64, version_from_run, version_of,
    ToolAction,
};

verus! {

#[verifier::external_type_specification]
#[verifier::external_body]
pub struct ExFromUtf8Error(std::string::FromUtf8Error);

/// `String::from_utf8`: the bytes as a string when they are well-formed
/// UTF-8, and an error otherwise.
#[verifier::external_body]
fn utf8_string(bytes: Vec<u8>) -> (r: Result<String, std::string::FromUtf8Error>)
    ensures
        r is Ok <==> valid_utf8(bytes@),
        r matches Ok(s) ==> s@ == decode_utf8(bytes@),
{
    String::from_utf8(bytes)
}

/// A render run about to happen: the `d2` command, the file it will write,
/// and the digest of the source.
#[derive(Debug, Clone)]
pub struct RenderPlan {
    pub command: CommandSpec,
    pub output_path: Vec<u8>,
    pub source_sha256: String,
}

/// A numeric option and its value, when the call sets it.
pub open spec fn number_option(flag: Seq<char>, value: Option<i64>) -> Seq<ArgView> {
    match value {
        Some(v) => seq![ArgView::Text(flag), ArgView::Text(signed_decimal(v as int))],
        None => seq![],
    }
}

/// The arguments of a render run: the source file, the output file, the
/// output format, the time limit `d2` itself enforces, and then each option
/// the call sets, in the order theme, dark theme, layout, sketch, padding.
pub open spec fn render_command_args(
    args: D2RenderArgs,
    output_path: Seq<u8>,
    timeout: u64,
) -> Seq<ArgView> {
    seq![
        ArgView::InputFile,
        ArgView::Path(output_path),
        ArgView::Text("--stdout-format"@),
        ArgView::Text(format_extension(args.format)),
        ArgView::Text("--timeout"@),
        ArgView::Text(decimal(timeout as nat)),
    ] + number_option("--theme"@, args.theme) + number_option("--dark-theme"@, args.dark_theme)
        + match args.layout {
        Some(l) => seq![ArgView::Text("--layout"@), ArgView::Text(l@)],
        None => seq![],
    } + (if args.sketch {
        seq![ArgView::Text("--sketch"@)]
    } else {
        seq![]
    }) + number_option("--pad"@, args.pad)
}

/// The path a render call asks for, relative to the working directory.
pub open spec fn render_relative_path(args: D2RenderArgs) -> Seq<u8> {
    requested_output_path(opt_str(args.output_path), args.format, text_digest(args.source@))
}

/// Why a render call is refused before its source is written, if it is:
/// the source rules, then the render options, then the time limit.
pub open spec fn render_early_refusal(args: D2RenderArgs, config: D2Config) -> Option<Seq<char>> {
    match source_refusal(args.source@, args.allow_remote_assets, config.max_source_bytes) {
        Some(m) => Some(m),
        None => match render_args_refusal(
            args.theme,
            args.dark_theme,
            args.pad,
            opt_str(args.layout),
        ) {
            Some(m) => Some(m),
            None => if timeout_refused(args.timeout_seconds) {
                Some(timeout_message())
            } else {
                None
            },
        },
    }
}

/// Why a render call is refused before `d2` runs, if it is: the early
/// rules, then the output path.
pub open spec fn render_refusal(args: D2RenderArgs, config: D2Config) -> Option<Seq<char>> {
    match render_early_refusal(args, config) {
        Some(m) => Some(m),
        None => relative_path_refusal(render_relative_path(args)),
    }
}

fn render_precheck(args: &D2RenderArgs, config: &D2Config) -> (r: Result<u64, D2McpError>)
    ensures
        match render_early_refusal(*args, *config) {
            Some(m) => r matches Err(D2McpError::InvalidInput(e)) && e@ == m,
            None => r == Ok::<u64, D2McpError>(requested_timeout(args.timeout_seconds)),
        },
{
    match validate_source(args.source.as_str(), args.allow_remote_assets, config) {
        Ok(()) => {},
        Err(e) => return Err(e),
    }
    match validate_render_args(args) {
        Ok(()) => {},
        Err(e) => return Err(e),
    }
    timeout_from_args(args.timeout_seconds)
}

fn add_number_option(c: CommandSpec, flag: &str, value: Option<i64>) -> (r: CommandSpec)
    ensures
        r.program@ == c.program@,
        r.timeout_seconds == c.timeout_seconds,
        args_view(r.args@) == args_view(c.args@) + number_option(flag@, value),
{
    match value {
        Some(v) => {
            let t = i64_text(v);
            let r = c.arg(flag).arg(t.as_str());
            assert(args_view(r.args@) =~= args_view(c.args@) + number_option(flag@, value));
            r
        },
        None => {
            assert(args_view(c.args@) =~= args_view(c.args@) + number_option(flag@, value));
            c
        },
    }
}

fn render_command(program: &str, args: &D2RenderArgs, output_path: &[u8], timeout: u64) -> (c:
    CommandSpec)
    requires
        timeout <= MAX_TIMEOUT_SECONDS,
    ensures
        c.program@ == program@,
        args_view(c.args@) == render_command_args(*args, output_path@, timeout),
        c.timeout_seconds == timeout + 2,
{
    let timeout_text = u64_text(timeout);
    let mut c = CommandSpec::new(program).input_file_arg().path_arg(output_path).arg(
        "--stdout-format",
    ).arg(args.format.cli_value()).arg("--timeout").arg(
        timeout_text.as_str(),
    );
    let ghost base = args_view(c.args@);
    c = add_number_option(c, "--theme", args.theme);
    c = add_number_option(c, "--dark-theme", args.dark_theme);
    let ghost after_themes = args_view(c.args@);
    match &args.layout {
        Some(l) => {
            c = c.arg("--layout").arg(l.as_str());
        },
        None => {},
    }
    let ghost after_layout = args_view(c.args@);
    assert(after_layout =~= after_themes + match args.layout {
        Some(l) => seq![ArgView::Text("--layout"@), ArgView::Text(l@)],
        None => seq![],
    });
    if args.sketch {
        c = c.arg("--sketch");
    }
    let ghost after_sketch = args_view(c.args@);
    assert(after_sketch =~= after_layout + (if args.sketch {
        seq![ArgView::Text("--sketch"@)]
    } else {
        seq![]
    }));
    c = add_number_option(c, "--pad", args.pad);
    c = c.timeout(timeout + 2);
    assert(args_view(c.args@) =~= render_command_args(*args, output_path@, timeout));
    c
}

/// The render run a call makes, once the source, the render options, the
/// time limit and the output path pass their checks: `d2` on the source
/// file, writing the output file inside the working directory, allowed two
/// seconds more than it is told to take.
pub fn render_d2_command(args: &D2RenderArgs, config: &D2Config) -> (r: Result<
    RenderPlan,
    D2McpError,
>)
    ensures
        match render_refusal(*args, *config) {
            Some(m) => r matches Err(D2McpError::InvalidInput(e)) && e@ == m,
            None => r matches Ok(plan) && {
                let t = requested_timeout(args.timeout_seconds);
                let out = join_path(config.workdir@, render_relative_path(*args));
                &&& plan.source_sha256@ == text_digest(args.source@)
                &&& plan.source_sha256@.len() == 64
                &&& plan.output_path@ == out
                &&& plan.command.program@ == config.d2_binary@
                &&& args_view(plan.command.args@) == render_command_args(*args, out, t)
                &&& plan.command.timeout_seconds == t + 2
            },
        },
{
    let timeout = match render_precheck(args, config) {
        Ok(t) => t,
        Err(e) => return Err(e),
    };
    let source_sha256 = sha256_hex(args.source.as_str().as_bytes());
    proof {
        lemma_ascii_char_boundary(source_sha256@, 16);
    }
    let requested: Option<&str> = match &args.output_path {
        Some(p) => Some(p.as_str()),
        None => None,
    };
    let output_path = match resolve_output_path(
        config.workdir.as_slice(),
        requested,
        args.format,
        source_sha256.as_str(),
    ) {
        Ok(p) => p,
        Err(e) => return Err(e),
    };
    let c = render_command(config.d2_binary.as_str(), args, output_path.as_slice(), timeout);
    Ok(RenderPlan { command: c, output_path, source_sha256 })
}

/// The message for an output file that exists when the call does not allow
/// overwriting it.
pub open spec fn existing_output_message(shown: Seq<char>) -> Seq<char> {
    "output path already exists: "@ + shown
        + "; pass overwrite=true or choose a different relative output_path"@
}

/// Refuses to render over an existing file unless the call allows it; the
/// message shows the file relative to the working directory.
fn check_existing_output(workdir: &[u8], output_path: &[u8], exists: bool, overwrite: bool) -> (r:
    Result<(), D2McpError>)
    ensures
        exists && !overwrite ==> (r matches Err(D2McpError::InvalidInput(e)) && e@
            == existing_output_message(utf8_lossy(displayed_path(workdir@, output_path@)))),
        !(exists && !overwrite) ==> r is Ok,
{
    if exists && !overwrite {
        let shown = relative_display(workdir, output_path);
        let mut m = String::from_str("output path already exists: ");
        m.append(shown.as_str());
        m.append("; pass overwrite=true or choose a different relative output_path");
        assert(m@ =~= existing_output_message(utf8_lossy(displayed_path(workdir@, output_path@))));
        return Err(D2McpError::InvalidInput(m));
    }
    Ok(())
}

/// The message for a rendered file over the size limit.
pub open spec fn oversized_output_message(len: nat, limit: nat) -> Seq<char> {
    "rendered output is "@ + decimal(len) + " bytes, limit is "@ + decimal(limit) + " bytes"@
}

/// Refuses a rendered file larger than the configured limit.
fn check_rendered_size(rendered_len: usize, config: &D2Config) -> (r: Result<(), D2McpError>)
    ensures
        rendered_len > config.max_render_bytes ==> (r matches Err(D2McpError::InvalidInput(e))
            && e@ == oversized_output_message(rendered_len as nat, config.max_render_bytes as nat)),
        rendered_len <= config.max_render_bytes ==> r is Ok,
{
    if rendered_len > config.max_render_bytes {
        let mut m = String::from_str("rendered output is ");
        let a = u64_text(rendered_len as u64);
        m.append(a.as_str());
        m.append(" bytes, limit is ");
        let b = u64_text(config.max_render_bytes as u64);
        m.append(b.as_str());
        m.append(" bytes");
        assert(m@ =~= oversized_output_message(rendered_len as nat, config.max_render_bytes as nat));
        return Err(D2McpError::InvalidInput(m));
    }
    Ok(())
}

/// The call asked for the SVG inline and it is small enough to send.
pub open spec fn inline_wanted(args: D2RenderArgs, rendered: Seq<u8>) -> bool {
    args.inline_svg && args.format == D2OutputFormat::Svg && rendered.len() <= MAX_INLINE_SVG_BYTES
}

/// The prefix of the message for inline SVG that is not UTF-8.
pub open spec fn bad_svg_prefix() -> Seq<char> {
    "rendered SVG is not valid UTF-8: "@
}

/// The answer to a render call once `d2` has succeeded and written
/// `rendered`, which passed its checks (`inline` is the SVG text when it
/// was asked for inline): the format, the source's size and digest, the
/// output file shown relative to the working directory, its size and
/// digest, the inline SVG, the elapsed time, the `d2` version and the
/// diagnostics. `None` where the diagnostics cannot be cut to the limit
/// without splitting a character.
fn render_report(
    args: &D2RenderArgs,
    config: &D2Config,
    plan: &RenderPlan,
    output: &CommandOutput,
    rendered: &[u8],
    inline: Option<String>,
    elapsed_ms: u128,
    d2_version: Option<String>,
) -> (r: Option<D2RenderReport>)
    requires
        plan.source_sha256@ == text_digest(args.source@),
        plan.source_sha256@.len() == 64,
        plan.output_path@ == render_target(*args, *config),
        rendered@.len() <= config.max_render_bytes,
        match inline {
            Some(svg) => inline_wanted(*args, rendered@) && svg@ == decode_utf8(rendered@),
            None => !inline_wanted(*args, rendered@),
        },
    ensures
        r is None <==> diagnostics_text(*output) is None,
        r matches Some(rep) ==> {
            &&& rep.status == D2RenderStatus::Rendered
            &&& rep.format == args.format
            &&& rep.source_bytes == saturating_i64(encode_utf8(args.source@).len() as int)
            &&& rep.source_sha256@ == text_digest(args.source@)
            &&& rep.source_sha256@.len() == 64
            &&& shows_path(rep.output_path@, displayed_path(config.workdir@, render_target(*args, *config)))
            &&& rep.output_bytes == saturating_i64(rendered@.len() as int)
            &&& rep.output_sha256@ == hex_lower(sha256(rendered@))
            &&& rep.output_sha256@.len() == 64
            &&& rep.inline_svg == inline
            &&& rep.elapsed_ms == saturating_i64(elapsed_ms as int)
            &&& rep.d2_version == d2_version
            &&& diagnostics_text(*output) == Some(rep.diagnostics@)
        },
{
    let diagnostics = match diagnostics_from(output) {
        Some(d) => d,
        None => return None,
    };
    Some(
        D2RenderReport {
            status: D2RenderStatus::Rendered,
            format: args.format,
            source_bytes: usize_to_i64(args.source.as_str().as_bytes().len()),
            source_sha256: String::from_str(plan.source_sha256.as_str()),
            output_path: relative_display(config.workdir.as_slice(), plan.output_path.as_slice()),
            output_bytes: usize_to_i64(rendered.len()),
            output_sha256: sha256_hex(rendered),
            inline_svg: inline,
            elapsed_ms: u128_to_i64(elapsed_ms),
            d2_version,
            diagnostics,
        },
    )
}

/// `shown` is how a path with these bytes is displayed: with bytes that are
/// not UTF-8 replaced, and exactly the decoded text where they all are.
pub open spec fn shows_path(shown: Seq<char>, path: Seq<u8>) -> bool {
    &&& shown == utf8_lossy(path)
    &&& valid_utf8(path) ==> shown == decode_utf8(path)
}

/// The file a render call writes.
pub open spec fn render_target(args: D2RenderArgs, config: D2Config) -> Seq<u8> {
    join_path(config.workdir@, render_relative_path(args))
}

/// What has happened so far in a render call.
pub enum RenderEvent {
    /// Nothing yet.
    Start,
    /// The source is in its temporary file.
    SourceWritten,
    /// Whether a file exists at the target path.
    TargetChecked { exists: bool },
    /// The render run finished with `output`.
    RunFinished { output: CommandOutput },
    /// After that run, the target file read back as `rendered`.
    OutputRead { output: CommandOutput, rendered: Vec<u8> },
    /// After reading it (taking `elapsed_ms` since the run began), the
    /// version run gave `version_run` (`None` where it could not run).
    VersionReported {
        output: CommandOutput,
        rendered: Vec<u8>,
        elapsed_ms: u128,
        version_run: Option<CommandOutput>,
    },
}

/// A refusal of inline SVG that is not UTF-8: the prefix, then the text of
/// the UTF-8 error.
pub open spec fn refuses_bad_svg<R>(r: ToolAction<R>) -> bool {
    r matches ToolAction::Refuse(D2McpError::InvalidInput(e)) && exists|
        err: std::string::FromUtf8Error,
        t: String,
    | to_string_from_display_ensures::<std::string::FromUtf8Error>(&err, t) && e@ == bad_svg_prefix()
        + t@
}

/// The report a render call gives for a successful run that wrote
/// `rendered`.
pub open spec fn render_report_ok(
    rep: D2RenderReport,
    args: D2RenderArgs,
    config: D2Config,
    output: CommandOutput,
    rendered: Seq<u8>,
    elapsed_ms: u128,
    version_run: Option<CommandOutput>,
) -> bool {
    &&& rep.status == D2RenderStatus::Rendered
    &&& rep.format == args.format
    &&& rep.source_bytes == saturating_i64(encode_utf8(args.source@).len() as int)
    &&& rep.source_sha256@ == text_digest(args.source@)
    &&& rep.source_sha256@.len() == 64
    &&& shows_path(rep.output_path@, displayed_path(config.workdir@, render_target(args, config)))
    &&& rep.output_bytes == saturating_i64(rendered.len() as int)
    &&& rendered.len() <= config.max_render_bytes
    &&& rep.output_sha256@ == hex_lower(sha256(rendered))
    &&& rep.output_sha256@.len() == 64
    &&& match rep.inline_svg {
        Some(svg) => inline_wanted(args, rendered) && svg@ == decode_utf8(rendered),
        None => !inline_wanted(args, rendered),
    }
    &&& rep.elapsed_ms == saturating_i64(elapsed_ms as int)
    &&& same_text(rep.d2_version, version_from_run(version_run))
    &&& diagnostics_text(output) == Some(rep.diagnostics@)
}

/// The step after the rendered file is read: an oversized file is removed
/// and refused; SVG asked for inline that is not UTF-8 is refused;
/// otherwise `next` holds.
pub open spec fn after_render_read<R>(
    r: ToolAction<R>,
    args: D2RenderArgs,
    config: D2Config,
    rendered: Seq<u8>,
    next: bool,
) -> bool {
    if rendered.len() > config.max_render_bytes {
        &&& r matches ToolAction::RemoveAndRefuse { path, error }
        &&& path@ == render_target(args, config)
        &&& error matches D2McpError::InvalidInput(e)
        &&& e@ == oversized_output_message(rendered.len(), config.max_render_bytes as nat)
    } else if inline_wanted(args, rendered) && !valid_utf8(rendered) {
        refuses_bad_svg(r)
    } else {
        next
    }
}

/// After the run and the read: a rendered file that is too large, or is
/// inline SVG that is not UTF-8, is refused; otherwise the value `ok`.
fn check_rendered(
    args: &D2RenderArgs,
    config: &D2Config,
    plan: &RenderPlan,
    rendered: &[u8],
) -> (r: Result<Option<String>, ToolAction<D2RenderReport>>)
    requires
        plan.output_path@ == render_target(*args, *config),
    ensures
        match r {
            Ok(inline) => rendered@.len() <= config.max_render_bytes && !(inline_wanted(
                *args,
                rendered@,
            ) && !valid_utf8(rendered@)) && match inline {
                Some(svg) => inline_wanted(*args, rendered@) && svg@ == decode_utf8(rendered@),
                None => !inline_wanted(*args, rendered@),
            },
            Err(a) => after_render_read(a, *args, *config, rendered@, false),
        },
{
    match check_rendered_size(rendered.len(), config) {
        Ok(()) => {},
        Err(error) => {
            return Err(
                ToolAction::RemoveAndRefuse {
                    path: vstd::slice::slice_to_vec(plan.output_path.as_slice()),
                    error,
                },
            );
        },
    }
    if args.inline_svg && args.format == D2OutputFormat::Svg && rendered.len() <= MAX_INLINE_SVG_BYTES {
        let copy = vstd::slice::slice_to_vec(rendered);
        match utf8_string(copy) {
            Ok(svg) => Ok(Some(svg)),
            Err(err) => {
                let mut m = String::from_str("rendered SVG is not valid UTF-8: ");
                let t = err.to_string();
                m.append(t.as_str());
                let a = ToolAction::Refuse(D2McpError::InvalidInput(m));
                assert(refuses_bad_svg(a));
                Err(a)
            },
        }
    } else {
        Ok(None)
    }
}

/// One step of a render call. A refused source, option or time limit is
/// refused at once, before anything is written or run. Otherwise the source
/// is written to a temporary file; then an output path that is empty,
/// absolute or holds `..` is refused; then an existing target (the working
/// directory, whatever bytes name it, joined with the requested path)
/// without `overwrite` is refused. Only
/// then does `d2` run, with exactly the render arguments and two seconds
/// more than its own limit, after the target's directories are made. A
/// failed run is answered with `D2Failed` and its diagnostics; after a
/// successful one the target is read, removed and refused when over the
/// size limit, refused when inline SVG is not UTF-8, and otherwise the
/// version of `d2` is asked for and the report follows.
pub fn render_d2(args: &D2RenderArgs, config: &D2Config, event: RenderEvent) -> (r: ToolAction<
    D2RenderReport,
>)
    ensures
        match event {
            RenderEvent::Start => match render_early_refusal(*args, *config) {
                Some(m) => refuses_with(r, m),
                None => r is WriteSource,
            },
            _ => match render_refusal(*args, *config) {
                Some(m) => refuses_with(r, m),
                None => {
                    let out = render_target(*args, *config);
                    match event {
                        RenderEvent::Start => true,
                        RenderEvent::SourceWritten => r matches ToolAction::CheckTarget { path }
                            && path@ == out,
                        RenderEvent::TargetChecked { exists } => if exists && !args.overwrite {
                            refuses_with(
                                r,
                                existing_output_message(utf8_lossy(displayed_path(config.workdir@, out))),
                            )
                        } else {
                            &&& r matches ToolAction::Run { command, prepare_dir_for, flush_source_after }
                            &&& command.program@ == config.d2_binary@
                            &&& args_view(command.args@) == render_command_args(
                                *args,
                                out,
                                requested_timeout(args.timeout_seconds),
                            )
                            &&& command.timeout_seconds == requested_timeout(args.timeout_seconds) + 2
                            &&& prepare_dir_for matches Some(d)
                            &&& d@ == out
                            &&& !flush_source_after
                        },
                        RenderEvent::RunFinished { output } => if output.exit_success {
                            r matches ToolAction::ReadOutput { path } && path@ == out
                        } else {
                            fails_with_diagnostics(r, output)
                        },
                        RenderEvent::OutputRead { output, rendered } => if output.exit_success {
                            after_render_read(
                                r,
                                *args,
                                *config,
                                rendered@,
                                r matches ToolAction::QueryVersion { command }
                                    && is_version_command(command, config.d2_binary@),
                            )
                        } else {
                            fails_with_diagnostics(r, output)
                        },
                        RenderEvent::VersionReported { output, rendered, elapsed_ms, version_run } => if output.exit_success {
                            after_render_read(
                                r,
                                *args,
                                *config,
                                rendered@,
                                match diagnostics_text(output) {
                                    None => r is CannotCutDiagnostics,
                                    Some(_) => r matches ToolAction::Finish(rep) && render_report_ok(
                                        rep,
                                        *args,
                                        *config,
                                        output,
                                        rendered@,
                                        elapsed_ms,
                                        version_run,
                                    ),
                                },
                            )
                        } else {
                            fails_with_diagnostics(r, output)
                        },
                    }
                },
            },
        },
{
    if let RenderEvent::Start = event {
        return match render_precheck(args, config) {
            Ok(_) => ToolAction::WriteSource,
            Err(e) => ToolAction::Refuse(e),
        };
    }
    let plan = match render_d2_command(args, config) {
        Ok(p) => p,
        Err(e) => return ToolAction::Refuse(e),
    };
    match event {
        RenderEvent::Start => ToolAction::WriteSource,
        RenderEvent::SourceWritten => ToolAction::CheckTarget { path: plan.output_path },
        RenderEvent::TargetChecked { exists } => {
            match check_existing_output(
                config.workdir.as_slice(),
                plan.output_path.as_slice(),
                exists,
                args.overwrite,
            ) {
                Ok(()) => {},
                Err(e) => return ToolAction::Refuse(e),
            }
            let dir = vstd::slice::slice_to_vec(plan.output_path.as_slice());
            ToolAction::Run {
                command: plan.command,
                prepare_dir_for: Some(dir),
                flush_source_after: false,
            }
        },
        RenderEvent::RunFinished { output } => match check_d2_success(&output) {
            Some(Ok(())) => ToolAction::ReadOutput { path: plan.output_path },
            Some(Err(e)) => ToolAction::Refuse(e),
            None => ToolAction::CannotCutDiagnostics,
        },
        RenderEvent::OutputRead { output, rendered } => {
            match check_d2_success(&output) {
                Some(Ok(())) => {},
                Some(Err(e)) => return ToolAction::Refuse(e),
                None => return ToolAction::CannotCutDiagnostics,
            }
            match check_rendered(args, config, &plan, rendered.as_slice()) {
                Ok(_) => ToolAction::QueryVersion {
                    command: version_command(config.d2_binary.as_str()),
                },
                Err(a) => a,
            }
        },
        RenderEvent::VersionReported { output, rendered, elapsed_ms, version_run } => {
            match check_d2_success(&output) {
                Some(Ok(())) => {},
                Some(Err(e)) => return ToolAction::Refuse(e),
                None => return ToolAction::CannotCutDiagnostics,
            }
            let inline = match check_rendered(args, config, &plan, rendered.as_slice()) {
                Ok(i) => i,
                Err(a) => return a,
            };
            let version = version_of(&version_run);
            match render_report(
                args,
                config,
                &plan,
                &output,
                rendered.as_slice(),
                inline,
                elapsed_ms,
                version,
            ) {
                Some(rep) => ToolAction::Finish(rep),
                None => ToolAction::CannotCutDiagnostics,
            }
        },
    }
}

} // verus!
