use vstd::prelude::*;
use vstd::utf8::{decode_utf8, encode_utf8, valid_utf8};

use crate::command::{
    args_view, d2_version, diagnostics_from, diagnostics_text, reported_version, same_text,
    version_command, ArgView, CommandOutput, CommandSpec,
};
use crate::config::{D2Config, DEFAULT_TIMEOUT_SECONDS, MAX_TIMEOUT_SECONDS};
use crate::error::D2McpError;
use crate::hash::{sha256, sha256_hex};
use crate::model::{
    D2BackendStatus, D2FormatArgs, D2FormatReport, D2FormatStatus, D2OutputFormat, D2StatusReport,
    D2ValidateArgs, D2ValidateReport, D2ValidationStatus, RemoteAssetPolicy,
};
use crate::policy::{requested_timeout, source_refusal, timeout_from_args, timeout_message, validate_source};
use crate::text::{hex_lower, lossy_text, utf8_lossy};

verus! {

/// `v` as an `i64`, or `i64::MAX` where it does not fit.
pub open spec fn saturating_i64(v: int) -> i64 {
    if v <= i64::MAX {
        v as i64
    } else {
        i64::MAX
    }
}

/// A byte count as reported: `i64::MAX` where it does not fit.
pub fn usize_to_i64(value: usize) -> (r: i64)
    ensures
        r == saturating_i64(value as int),
{
    if value as u128 <= i64::MAX as u128 {
        value as i64
    } else {
        i64::MAX
    }
}

/// A number of seconds as reported: `i64::MAX` where it does not fit.
pub fn u64_to_i64(value: u64) -> (r: i64)
    ensures
        r == saturating_i64(value as int),
{
    if value <= i64::MAX as u64 {
        value as i64
    } else {
        i64::MAX
    }
}

/// A number of milliseconds as reported: `i64::MAX` where it does not fit.
pub fn u128_to_i64(value: u128) -> (r: i64)
    ensures
        r == saturating_i64(value as int),
{
    if value <= i64::MAX as u128 {
        value as i64
    } else {
        i64::MAX
    }
}

/// The version a `d2 --version` run reported: `None` where the run could
/// not be made.
pub open spec fn version_from_run(run: Option<CommandOutput>) -> Option<Seq<char>> {
    match run {
        Some(o) => reported_version(o),
        None => None,
    }
}

/// The version reported by the run of `version_command`, if it ran.
pub fn version_of(run: &Option<CommandOutput>) -> (r: Option<String>)
    ensures
        same_text(r, version_from_run(*run)),
{
    match run {
        Some(o) => d2_version(o),
        None => None,
    }
}

/// The server's readiness report, given the outcome of the
/// `version_command(config.d2_binary)` run (`None` where it could not run):
/// `d2` is ready when that run reported a version; the configured binary,
/// the working directory as `Path::display` shows it, and the limits; both
/// output formats; remote assets blocked unless a call allows them; and the
/// promise that the server reads no arbitrary files and writes nothing
/// outside the working directory.
pub fn d2_status(config: &D2Config, version_run: Option<CommandOutput>) -> (r: D2StatusReport)
    ensures
        r.status == (if version_from_run(version_run) is Some {
            D2BackendStatus::Ready
        } else {
            D2BackendStatus::Unavailable
        }),
        r.d2_binary@ == config.d2_binary@,
        same_text(r.d2_version, version_from_run(version_run)),
        r.workdir@ == utf8_lossy(config.workdir@),
        valid_utf8(config.workdir@) ==> r.workdir@ == decode_utf8(config.workdir@),
        r.max_source_bytes == saturating_i64(config.max_source_bytes as int),
        r.max_render_bytes == saturating_i64(config.max_render_bytes as int),
        r.default_timeout_seconds == DEFAULT_TIMEOUT_SECONDS as i64,
        r.max_timeout_seconds == MAX_TIMEOUT_SECONDS as i64,
        r.supported_output_formats@ == seq![D2OutputFormat::Svg, D2OutputFormat::Png],
        r.remote_assets_default == RemoteAssetPolicy::BlockedUnlessExplicitlyAllowed,
        !r.reads_arbitrary_files,
        !r.writes_outside_workdir,
{
    let d2_version = version_of(&version_run);
    let status = if d2_version.is_some() {
        D2BackendStatus::Ready
    } else {
        D2BackendStatus::Unavailable
    };
    let formats = vec![D2OutputFormat::Svg, D2OutputFormat::Png];
    D2StatusReport {
        status,
        d2_binary: String::from_str(config.d2_binary.as_str()),
        d2_version,
        workdir: lossy_text(config.workdir.as_slice()),
        max_source_bytes: usize_to_i64(config.max_source_bytes),
        max_render_bytes: usize_to_i64(config.max_render_bytes),
        default_timeout_seconds: u64_to_i64(DEFAULT_TIMEOUT_SECONDS),
        max_timeout_seconds: u64_to_i64(MAX_TIMEOUT_SECONDS),
        supported_output_formats: formats,
        remote_assets_default: RemoteAssetPolicy::BlockedUnlessExplicitlyAllowed,
        reads_arbitrary_files: false,
        writes_outside_workdir: false,
    }
}

/// The time limit asked for is out of range.
pub open spec fn timeout_refused(value: Option<u64>) -> bool {
    requested_timeout(value) == 0 || requested_timeout(value) > MAX_TIMEOUT_SECONDS
}

/// Why a validate or format call is refused before `d2` runs, if it is: the
/// source rules first, then the time limit.
pub open spec fn source_call_refusal(
    source: Seq<char>,
    allow_remote_assets: bool,
    timeout_seconds: Option<u64>,
    config: D2Config,
) -> Option<Seq<char>> {
    match source_refusal(source, allow_remote_assets, config.max_source_bytes) {
        Some(m) => Some(m),
        None => if timeout_refused(timeout_seconds) {
            Some(timeout_message())
        } else {
            None
        },
    }
}

/// The run that checks or formats a source: `d2 <subcommand> <source file>`
/// with the call's time limit, unless the call is refused.
pub open spec fn source_command_result(
    r: Result<CommandSpec, D2McpError>,
    source: Seq<char>,
    allow_remote_assets: bool,
    timeout_seconds: Option<u64>,
    config: D2Config,
    subcommand: Seq<char>,
) -> bool {
    match source_call_refusal(source, allow_remote_assets, timeout_seconds, config) {
        Some(m) => r matches Err(D2McpError::InvalidInput(e)) && e@ == m,
        None => r matches Ok(c) && c.program@ == config.d2_binary@ && args_view(c.args@) == seq![
            ArgView::Text(subcommand),
            ArgView::InputFile,
        ] && c.timeout_seconds == requested_timeout(timeout_seconds),
    }
}

pub(crate) fn source_command(
    source: &str,
    allow_remote_assets: bool,
    timeout_seconds: Option<u64>,
    config: &D2Config,
    subcommand: &str,
) -> (r: Result<CommandSpec, D2McpError>)
    ensures
        source_command_result(
            r,
            source@,
            allow_remote_assets,
            timeout_seconds,
            *config,
            subcommand@,
        ),
{
    match validate_source(source, allow_remote_assets, config) {
        Ok(()) => {},
        Err(e) => return Err(e),
    }
    let timeout = match timeout_from_args(timeout_seconds) {
        Ok(t) => t,
        Err(e) => return Err(e),
    };
    let c = CommandSpec::new(config.d2_binary.as_str()).arg(subcommand).input_file_arg().timeout(
        timeout,
    );
    assert(args_view(c.args@) =~= seq![ArgView::Text(subcommand@), ArgView::InputFile]);
    Ok(c)
}

/// The run a validate call makes: `d2 validate <source file>`, once the
/// source and time limit pass their checks.
pub(crate) fn validate_d2_command(args: &D2ValidateArgs, config: &D2Config) -> (r: Result<
    CommandSpec,
    D2McpError,
>)
    ensures
        source_command_result(
            r,
            args.source@,
            args.allow_remote_assets,
            args.timeout_seconds,
            *config,
            "validate"@,
        ),
{
    source_command(
        args.source.as_str(),
        args.allow_remote_assets,
        args.timeout_seconds,
        config,
        "validate",
    )
}

/// The run a format call makes: `d2 fmt <source file>`, once the source and
/// time limit pass their checks.
pub(crate) fn format_d2_command(args: &D2FormatArgs, config: &D2Config) -> (r: Result<
    CommandSpec,
    D2McpError,
>)
    ensures
        source_command_result(
            r,
            args.source@,
            args.allow_remote_assets,
            args.timeout_seconds,
            *config,
            "fmt"@,
        ),
{
    source_command(args.source.as_str(), args.allow_remote_assets, args.timeout_seconds, config, "fmt")
}

/// The lowercase hexadecimal SHA-256 digest of a text's UTF-8 bytes.
pub open spec fn text_digest(text: Seq<char>) -> Seq<char> {
    hex_lower(sha256(encode_utf8(text)))
}

/// The answer to a validate call once `d2 validate` has run: valid exactly
/// when `d2` succeeded, with the source's size and digest, the elapsed time,
/// the `d2` version and the diagnostics. `None` where the diagnostics cannot
/// be cut to the limit without splitting a character.
fn validate_report(
    args: &D2ValidateArgs,
    output: &CommandOutput,
    elapsed_ms: u128,
    d2_version: Option<String>,
) -> (r: Option<D2ValidateReport>)
    ensures
        r is None <==> diagnostics_text(*output) is None,
        r matches Some(rep) ==> {
            &&& rep.status == (if output.exit_success {
                D2ValidationStatus::Valid
            } else {
                D2ValidationStatus::Invalid
            })
            &&& rep.source_bytes == saturating_i64(encode_utf8(args.source@).len() as int)
            &&& rep.source_sha256@ == text_digest(args.source@)
            &&& rep.source_sha256@.len() == 64
            &&& rep.elapsed_ms == saturating_i64(elapsed_ms as int)
            &&& rep.d2_version == d2_version
            &&& diagnostics_text(*output) == Some(rep.diagnostics@)
        },
{
    let diagnostics = match diagnostics_from(output) {
        Some(d) => d,
        None => return None,
    };
    let status = if output.exit_success {
        D2ValidationStatus::Valid
    } else {
        D2ValidationStatus::Invalid
    };
    let bytes = args.source.as_str().as_bytes();
    Some(
        D2ValidateReport {
            status,
            source_bytes: usize_to_i64(bytes.len()),
            source_sha256: sha256_hex(bytes),
            elapsed_ms: u128_to_i64(elapsed_ms),
            d2_version,
            diagnostics,
        },
    )
}

/// The answer to a format call once `d2 fmt` has succeeded and rewritten
/// the source file to `formatted_source`: whether formatting changed the
/// text, the sizes and digest, the elapsed time, the `d2` version and the
/// diagnostics. `None` where the diagnostics cannot be cut to the limit
/// without splitting a character.
fn format_report(
    args: &D2FormatArgs,
    output: &CommandOutput,
    formatted_source: String,
    elapsed_ms: u128,
    d2_version: Option<String>,
) -> (r: Option<D2FormatReport>)
    requires
        output.exit_success,
    ensures
        r is None <==> diagnostics_text(*output) is None,
        r matches Some(rep) ==> {
            &&& rep.status == D2FormatStatus::Formatted
            &&& rep.source_bytes == saturating_i64(encode_utf8(args.source@).len() as int)
            &&& rep.formatted_bytes == saturating_i64(
                encode_utf8(formatted_source@).len() as int,
            )
            &&& rep.changed == (formatted_source@ != args.source@)
            &&& rep.formatted_source@ == formatted_source@
            &&& rep.formatted_sha256@ == text_digest(formatted_source@)
            &&& rep.formatted_sha256@.len() == 64
            &&& rep.elapsed_ms == saturating_i64(elapsed_ms as int)
            &&& rep.d2_version == d2_version
            &&& diagnostics_text(*output) == Some(rep.diagnostics@)
        },
{
    let changed = formatted_source != args.source;
    let diagnostics = match diagnostics_from(output) {
        Some(d) => d,
        None => return None,
    };
    let source_bytes = usize_to_i64(args.source.as_str().as_bytes().len());
    let formatted = formatted_source.as_str().as_bytes();
    let formatted_bytes = usize_to_i64(formatted.len());
    let formatted_sha256 = sha256_hex(formatted);
    Some(
        D2FormatReport {
            status: D2FormatStatus::Formatted,
            source_bytes,
            formatted_bytes,
            changed,
            formatted_sha256,
            formatted_source,
            elapsed_ms: u128_to_i64(elapsed_ms),
            d2_version,
            diagnostics,
        },
    )
}

/// After a format or render run: nothing to report when `d2` succeeded, a
/// failure carrying its diagnostics when it did not, and `None` where those
/// diagnostics cannot be cut to the limit without splitting a character.
pub(crate) fn check_d2_success(output: &CommandOutput) -> (r: Option<Result<(), D2McpError>>)
    ensures
        output.exit_success ==> r == Some(Ok::<(), D2McpError>(())),
        !output.exit_success ==> match diagnostics_text(*output) {
            Some(d) => r matches Some(Err(D2McpError::D2Failed(e))) && e@ == d,
            None => r is None,
        },
{
    if output.exit_success {
        return Some(Ok(()));
    }
    match diagnostics_from(output) {
        Some(d) => Some(Err(D2McpError::D2Failed(d))),
        None => None,
    }
}

/// What the server does next in a tool call. The tool's step function
/// chooses it; the caller performs it and reports back what happened.
#[derive(Debug)]
pub enum ToolAction<R> {
    /// Answer the call with this error; nothing more is done.
    Refuse(D2McpError),
    /// Write the call's source to a new temporary `.d2` file.
    WriteSource,
    /// Find out whether a file exists at `path`.
    CheckTarget { path: Vec<u8> },
    /// Create the parent directories of `prepare_dir_for` when given, run
    /// `command` (its `InputFile` argument is the temporary source file) and
    /// stop it when its time limit passes, then flush the source file when
    /// `flush_source_after` says so.
    Run { command: CommandSpec, prepare_dir_for: Option<Vec<u8>>, flush_source_after: bool },
    /// Read the temporary source file back as text.
    ReadSourceFile,
    /// Read the file at `path`.
    ReadOutput { path: Vec<u8> },
    /// Remove the file at `path`, whatever comes of that, then answer the
    /// call with `error`.
    RemoveAndRefuse { path: Vec<u8>, error: D2McpError },
    /// Run `command` to learn the version of `d2`.
    QueryVersion { command: CommandSpec },
    /// Answer the call with this report.
    Finish(R),
    /// The diagnostics cannot be cut to the reporting limit: the limit falls
    /// inside a character. The call has no answer (cutting there panics).
    CannotCutDiagnostics,
}

/// `c` is the run that asks `binary` for its version.
pub open spec fn is_version_command(c: CommandSpec, binary: Seq<char>) -> bool {
    &&& c.program@ == binary
    &&& args_view(c.args@) == seq![ArgView::Text("--version"@)]
    &&& c.timeout_seconds == 5
}

/// The action is a refusal with this invalid-input message.
pub open spec fn refuses_with<R>(r: ToolAction<R>, m: Seq<char>) -> bool {
    r matches ToolAction::Refuse(D2McpError::InvalidInput(e)) && e@ == m
}

/// After a failed run: a refusal carrying its diagnostics, or no answer
/// where they cannot be cut.
pub open spec fn fails_with_diagnostics<R>(r: ToolAction<R>, output: CommandOutput) -> bool {
    match diagnostics_text(output) {
        Some(d) => r matches ToolAction::Refuse(D2McpError::D2Failed(e)) && e@ == d,
        None => r is CannotCutDiagnostics,
    }
}

/// What has happened so far in a validate call.
pub enum ValidateEvent {
    /// Nothing yet.
    Start,
    /// The source is in its temporary file.
    SourceWritten,
    /// `d2 validate` finished with `output`.
    RunFinished { output: CommandOutput },
    /// After that run (`output`, taking `elapsed_ms`), the version run gave
    /// `version_run` (`None` where it could not run).
    VersionReported { output: CommandOutput, elapsed_ms: u128, version_run: Option<CommandOutput> },
}

/// The report a validate call gives for a finished run.
pub open spec fn validate_report_ok(
    rep: D2ValidateReport,
    args: D2ValidateArgs,
    output: CommandOutput,
    elapsed_ms: u128,
    version_run: Option<CommandOutput>,
) -> bool {
    &&& rep.status == (if output.exit_success {
        D2ValidationStatus::Valid
    } else {
        D2ValidationStatus::Invalid
    })
    &&& rep.source_bytes == saturating_i64(encode_utf8(args.source@).len() as int)
    &&& rep.source_sha256@ == text_digest(args.source@)
    &&& rep.source_sha256@.len() == 64
    &&& rep.elapsed_ms == saturating_i64(elapsed_ms as int)
    &&& same_text(rep.d2_version, version_from_run(version_run))
    &&& diagnostics_text(output) == Some(rep.diagnostics@)
}

/// One step of a validate call. A refused source or time limit is refused
/// at once, before anything is written or run. Otherwise the source is
/// written to a temporary file, `d2 validate <file>` runs with the call's
/// time limit (the file is flushed after it), its diagnostics are taken,
/// the version of `d2` is asked for, and the report follows: valid exactly
/// when `d2` succeeded.
pub fn validate_d2(args: &D2ValidateArgs, config: &D2Config, event: ValidateEvent) -> (r: ToolAction<
    D2ValidateReport,
>)
    ensures
        match source_call_refusal(args.source@, args.allow_remote_assets, args.timeout_seconds, *config) {
            Some(m) => refuses_with(r, m),
            None => match event {
                ValidateEvent::Start => r is WriteSource,
                ValidateEvent::SourceWritten => r matches ToolAction::Run {
                    command,
                    prepare_dir_for,
                    flush_source_after,
                } && command.program@ == config.d2_binary@ && args_view(command.args@) == seq![
                    ArgView::Text("validate"@),
                    ArgView::InputFile,
                ] && command.timeout_seconds == requested_timeout(args.timeout_seconds)
                    && prepare_dir_for is None && flush_source_after,
                ValidateEvent::RunFinished { output } => match diagnostics_text(output) {
                    None => r is CannotCutDiagnostics,
                    Some(_) => r matches ToolAction::QueryVersion { command } && is_version_command(
                        command,
                        config.d2_binary@,
                    ),
                },
                ValidateEvent::VersionReported { output, elapsed_ms, version_run } => match diagnostics_text(output) {
                    None => r is CannotCutDiagnostics,
                    Some(_) => r matches ToolAction::Finish(rep) && validate_report_ok(
                        rep,
                        *args,
                        output,
                        elapsed_ms,
                        version_run,
                    ),
                },
            },
        },
{
    let command = match validate_d2_command(args, config) {
        Ok(c) => c,
        Err(e) => return ToolAction::Refuse(e),
    };
    match event {
        ValidateEvent::Start => ToolAction::WriteSource,
        ValidateEvent::SourceWritten => ToolAction::Run {
            command,
            prepare_dir_for: None,
            flush_source_after: true,
        },
        ValidateEvent::RunFinished { output } => match diagnostics_from(&output) {
            Some(_) => ToolAction::QueryVersion {
                command: version_command(config.d2_binary.as_str()),
            },
            None => ToolAction::CannotCutDiagnostics,
        },
        ValidateEvent::VersionReported { output, elapsed_ms, version_run } => {
            let version = version_of(&version_run);
            match validate_report(args, &output, elapsed_ms, version) {
                Some(rep) => ToolAction::Finish(rep),
                None => ToolAction::CannotCutDiagnostics,
            }
        },
    }
}

/// What has happened so far in a format call.
pub enum FormatEvent {
    /// Nothing yet.
    Start,
    /// The source is in its temporary file.
    SourceWritten,
    /// `d2 fmt` finished with `output`.
    RunFinished { output: CommandOutput },
    /// After that run, the temporary file read back as `formatted`.
    FormattedRead { output: CommandOutput, formatted: String },
    /// After reading it (taking `elapsed_ms` since the run began), the
    /// version run gave `version_run` (`None` where it could not run).
    VersionReported {
        output: CommandOutput,
        formatted: String,
        elapsed_ms: u128,
        version_run: Option<CommandOutput>,
    },
}

/// The report a format call gives for a successful run.
pub open spec fn format_report_ok(
    rep: D2FormatReport,
    args: D2FormatArgs,
    output: CommandOutput,
    formatted: Seq<char>,
    elapsed_ms: u128,
    version_run: Option<CommandOutput>,
) -> bool {
    &&& rep.status == D2FormatStatus::Formatted
    &&& rep.source_bytes == saturating_i64(encode_utf8(args.source@).len() as int)
    &&& rep.formatted_bytes == saturating_i64(encode_utf8(formatted).len() as int)
    &&& rep.changed == (formatted != args.source@)
    &&& rep.formatted_source@ == formatted
    &&& rep.formatted_sha256@ == text_digest(formatted)
    &&& rep.formatted_sha256@.len() == 64
    &&& rep.elapsed_ms == saturating_i64(elapsed_ms as int)
    &&& same_text(rep.d2_version, version_from_run(version_run))
    &&& diagnostics_text(output) == Some(rep.diagnostics@)
}

/// One step of a format call. A refused source or time limit is refused at
/// once, before anything is written or run. Otherwise the source is written
/// to a temporary file and `d2 fmt <file>` runs with the call's time limit;
/// a failed run is answered with `D2Failed` and its diagnostics; after a
/// successful one the file is read back, the version of `d2` is asked for,
/// and the report follows.
pub fn format_d2(args: &D2FormatArgs, config: &D2Config, event: FormatEvent) -> (r: ToolAction<
    D2FormatReport,
>)
    ensures
        match source_call_refusal(args.source@, args.allow_remote_assets, args.timeout_seconds, *config) {
            Some(m) => refuses_with(r, m),
            None => match event {
                FormatEvent::Start => r is WriteSource,
                FormatEvent::SourceWritten => r matches ToolAction::Run {
                    command,
                    prepare_dir_for,
                    flush_source_after,
                } && command.program@ == config.d2_binary@ && args_view(command.args@) == seq![
                    ArgView::Text("fmt"@),
                    ArgView::InputFile,
                ] && command.timeout_seconds == requested_timeout(args.timeout_seconds)
                    && prepare_dir_for is None && !flush_source_after,
                FormatEvent::RunFinished { output } => if output.exit_success {
                    r is ReadSourceFile
                } else {
                    fails_with_diagnostics(r, output)
                },
                FormatEvent::FormattedRead { output, .. } => if output.exit_success {
                    r matches ToolAction::QueryVersion { command } && is_version_command(
                        command,
                        config.d2_binary@,
                    )
                } else {
                    fails_with_diagnostics(r, output)
                },
                FormatEvent::VersionReported { output, formatted, elapsed_ms, version_run } => if !output.exit_success {
                    fails_with_diagnostics(r, output)
                } else {
                    match diagnostics_text(output) {
                        None => r is CannotCutDiagnostics,
                        Some(_) => r matches ToolAction::Finish(rep) && format_report_ok(
                            rep,
                            *args,
                            output,
                            formatted@,
                            elapsed_ms,
                            version_run,
                        ),
                    }
                },
            },
        },
{
    let command = match format_d2_command(args, config) {
        Ok(c) => c,
        Err(e) => return ToolAction::Refuse(e),
    };
    match event {
        FormatEvent::Start => ToolAction::WriteSource,
        FormatEvent::SourceWritten => ToolAction::Run {
            command,
            prepare_dir_for: None,
            flush_source_after: false,
        },
        FormatEvent::RunFinished { output } => match check_d2_success(&output) {
            Some(Ok(())) => ToolAction::ReadSourceFile,
            Some(Err(e)) => ToolAction::Refuse(e),
            None => ToolAction::CannotCutDiagnostics,
        },
        FormatEvent::FormattedRead { output, .. } => match check_d2_success(&output) {
            Some(Ok(())) => ToolAction::QueryVersion {
                command: version_command(config.d2_binary.as_str()),
            },
            Some(Err(e)) => ToolAction::Refuse(e),
            None => ToolAction::CannotCutDiagnostics,
        },
        FormatEvent::VersionReported { output, formatted, elapsed_ms, version_run } => {
            match check_d2_success(&output) {
                Some(Ok(())) => {},
                Some(Err(e)) => return ToolAction::Refuse(e),
                None => return ToolAction::CannotCutDiagnostics,
            }
            let version = version_of(&version_run);
            match format_report(args, &output, formatted, elapsed_ms, version) {
                Some(rep) => ToolAction::Finish(rep),
                None => ToolAction::CannotCutDiagnostics,
            }
        },
    }
}

} // verus!
