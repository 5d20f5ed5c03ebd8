use vstd::prelude::*;
use vstd::string::to_string_from_display_ensures;
use vstd::utf8::{decode_utf8, encode_utf8, is_char_boundary};

use crate::config::{DEFAULT_TIMEOUT_SECONDS, MAX_DIAGNOSTIC_BYTES};
use crate::error::D2McpError;
use crate::text::{decimal, lossy_text, push_char, trim, trimmed, u64_text, utf8_lossy};

verus! {

/// One argument of a `d2` command line.
#[derive(Debug, Clone, PartialEq, Eq)]
pub enum CommandArg {
    /// An argument given as text.
    Text(String),
    /// A path, as bytes.
    Path(Vec<u8>),
    /// The path of the temporary file that holds the source; the caller
    /// creates that file and puts its path here.
    InputFile,
}

/// The mathematical value of a command line argument.
pub enum ArgView {
    Text(Seq<char>),
    Path(Seq<u8>),
    InputFile,
}

impl View for CommandArg {
    type V = ArgView;

    open spec fn view(&self) -> ArgView {
        match self {
            CommandArg::Text(s) => ArgView::Text(s@),
            CommandArg::Path(p) => ArgView::Path(p@),
            CommandArg::InputFile => ArgView::InputFile,
        }
    }
}

/// The arguments of a command line, as values.
pub open spec fn args_view(args: Seq<CommandArg>) -> Seq<ArgView> {
    args.map_values(|a: CommandArg| a@)
}

/// A `d2` run to perform: the executable, its arguments, and how long it may
/// take.
#[derive(Debug, Clone)]
pub struct CommandSpec {
    pub program: String,
    pub args: Vec<CommandArg>,
    pub timeout_seconds: u64,
}

impl CommandSpec {
    /// A run of `program` with no arguments and the default time limit.
    pub fn new(program: &str) -> (r: CommandSpec)
        ensures
            r.program@ == program@,
            args_view(r.args@) == Seq::<ArgView>::empty(),
            r.timeout_seconds == DEFAULT_TIMEOUT_SECONDS,
    {
        let r = CommandSpec {
            program: String::from_str(program),
            args: Vec::new(),
            timeout_seconds: DEFAULT_TIMEOUT_SECONDS,
        };
        assert(args_view(r.args@) =~= Seq::<ArgView>::empty());
        r
    }

    /// The same run with one more text argument at the end.
    pub fn arg(self, arg: &str) -> (r: CommandSpec)
        ensures
            r.program@ == self.program@,
            args_view(r.args@) == args_view(self.args@).push(ArgView::Text(arg@)),
            r.timeout_seconds == self.timeout_seconds,
    {
        let mut r = self;
        r.args.push(CommandArg::Text(String::from_str(arg)));
        assert(args_view(r.args@) =~= args_view(self.args@).push(ArgView::Text(arg@)));
        r
    }

    /// The same run with one more argument, a path given as bytes.
    pub fn path_arg(self, path: &[u8]) -> (r: CommandSpec)
        ensures
            r.program@ == self.program@,
            args_view(r.args@) == args_view(self.args@).push(ArgView::Path(path@)),
            r.timeout_seconds == self.timeout_seconds,
    {
        let mut r = self;
        r.args.push(CommandArg::Path(vstd::slice::slice_to_vec(path)));
        assert(args_view(r.args@) =~= args_view(self.args@).push(ArgView::Path(path@)));
        r
    }

    /// The same run with the source file's path as one more argument.
    pub fn input_file_arg(self) -> (r: CommandSpec)
        ensures
            r.program@ == self.program@,
            args_view(r.args@) == args_view(self.args@).push(ArgView::InputFile),
            r.timeout_seconds == self.timeout_seconds,
    {
        let mut r = self;
        r.args.push(CommandArg::InputFile);
        assert(args_view(r.args@) =~= args_view(self.args@).push(ArgView::InputFile));
        r
    }

    /// The same run with another time limit, in seconds.
    pub fn timeout(self, seconds: u64) -> (r: CommandSpec)
        ensures
            r.program@ == self.program@,
            args_view(r.args@) == args_view(self.args@),
            r.timeout_seconds == seconds,
    {
        let mut r = self;
        r.timeout_seconds = seconds;
        r
    }
}

/// What a finished `d2` run left: whether it succeeded, and its two output
/// streams.
#[derive(Debug, Clone)]
pub struct CommandOutput {
    pub exit_success: bool,
    pub stdout: Vec<u8>,
    pub stderr: Vec<u8>,
}

/// Standard output, then a newline when both streams are non-empty, then
/// standard error, each decoded as `String::from_utf8_lossy` does; an empty
/// stream contributes nothing.
pub open spec fn combined_output(stdout: Seq<u8>, stderr: Seq<u8>) -> Seq<char> {
    let first = if stdout.len() > 0 {
        utf8_lossy(stdout)
    } else {
        seq![]
    };
    let sep = if stdout.len() > 0 && stderr.len() > 0 {
        seq!['\n']
    } else {
        seq![]
    };
    let second = if stderr.len() > 0 {
        utf8_lossy(stderr)
    } else {
        seq![]
    };
    first + sep + second
}

/// The text can be cut to the diagnostics limit: it is short enough, or the
/// limit falls on a character boundary. Elsewhere cutting it by bytes panics.
pub open spec fn diagnostic_cut_ok(text: Seq<char>) -> bool {
    encode_utf8(text).len() <= MAX_DIAGNOSTIC_BYTES || is_char_boundary(
        encode_utf8(text),
        MAX_DIAGNOSTIC_BYTES as int,
    )
}

/// Diagnostics as reported: a short text with surrounding whitespace
/// removed; a long one cut to its first `MAX_DIAGNOSTIC_BYTES` bytes and
/// marked `[truncated]` on a new line.
pub open spec fn truncated_diagnostic(text: Seq<char>) -> Seq<char> {
    if encode_utf8(text).len() <= MAX_DIAGNOSTIC_BYTES {
        trim(text)
    } else {
        decode_utf8(encode_utf8(text).subrange(0, MAX_DIAGNOSTIC_BYTES as int)) + "\n[truncated]"@
    }
}

/// Cuts diagnostics to the reporting limit.
pub fn truncate_diagnostic(text: &str) -> (r: String)
    requires
        diagnostic_cut_ok(text@),
    ensures
        r@ == truncated_diagnostic(text@),
{
    let len = text.as_bytes().len();
    if len <= MAX_DIAGNOSTIC_BYTES {
        return trimmed(text);
    }
    proof {
        vstd::utf8::encode_utf8_valid_utf8(text@);
    }
    let (head, _rest) = text.split_at(MAX_DIAGNOSTIC_BYTES);
    proof {
        vstd::utf8::encode_utf8_decode_utf8(head@);
    }
    let mut s = String::from_str(head);
    s.append("\n[truncated]");
    s
}

/// The diagnostics of a run as reported, or `None` where cutting them to the
/// limit would split a character (the point at which they cannot be cut).
pub open spec fn diagnostics_text(output: CommandOutput) -> Option<Seq<char>> {
    let text = combined_output(output.stdout@, output.stderr@);
    if diagnostic_cut_ok(text) {
        Some(truncated_diagnostic(text))
    } else {
        None
    }
}

/// The optional string matches the optional text.
pub open spec fn same_text(r: Option<String>, t: Option<Seq<char>>) -> bool {
    match r {
        Some(s) => t == Some(s@),
        None => t is None,
    }
}

/// The diagnostics `d2` printed: its standard output and standard error,
/// decoded leniently, joined by a newline and cut to the limit. `None` where
/// the cut would split a character.
pub fn diagnostics_from(output: &CommandOutput) -> (r: Option<String>)
    ensures
        same_text(r, diagnostics_text(*output)),
{
    let mut diagnostic = String::new();
    if output.stdout.len() > 0 {
        let t = lossy_text(output.stdout.as_slice());
        diagnostic.append(t.as_str());
    }
    assert(diagnostic@ =~= (if output.stdout@.len() > 0 {
        utf8_lossy(output.stdout@)
    } else {
        seq![]
    }));
    if output.stderr.len() > 0 {
        if !diagnostic.as_str().is_empty() {
            push_char(&mut diagnostic, '\n');
        }
        let t = lossy_text(output.stderr.as_slice());
        diagnostic.append(t.as_str());
    }
    assert(diagnostic@ =~= combined_output(output.stdout@, output.stderr@));
    let text = diagnostic.as_str();
    let len = text.as_bytes().len();
    if len > MAX_DIAGNOSTIC_BYTES && !text.is_char_boundary(MAX_DIAGNOSTIC_BYTES) {
        return None;
    }
    Some(truncate_diagnostic(text))
}

/// The version `d2 --version` reported: its standard output, decoded
/// leniently and trimmed, when the run succeeded and printed something.
pub open spec fn reported_version(output: CommandOutput) -> Option<Seq<char>> {
    let text = trim(utf8_lossy(output.stdout@));
    if !output.exit_success || text.len() == 0 {
        None
    } else {
        Some(text)
    }
}

/// The version of `d2` from the output of `d2 --version`.
pub fn d2_version(output: &CommandOutput) -> (r: Option<String>)
    ensures
        same_text(r, reported_version(*output)),
{
    if !output.exit_success {
        return None;
    }
    let text = lossy_text(output.stdout.as_slice());
    let version = trimmed(text.as_str());
    if version.as_str().is_empty() {
        None
    } else {
        Some(version)
    }
}

/// The run that asks `d2` for its version: `<binary> --version`, allowed
/// five seconds.
pub fn version_command(binary: &str) -> (r: CommandSpec)
    ensures
        r.program@ == binary@,
        args_view(r.args@) == seq![ArgView::Text("--version"@)],
        r.timeout_seconds == 5,
{
    let r = CommandSpec::new(binary).arg("--version").timeout(5);
    assert(args_view(r.args@) =~= seq![ArgView::Text("--version"@)]);
    r
}

/// The failure of a run that outlived its time limit of `seconds`.
pub fn timeout_error(seconds: u64) -> (r: D2McpError)
    ensures
        r matches D2McpError::Timeout(m) && m@ == "d2 exceeded "@ + decimal(seconds as nat)
            + "s timeout"@,
{
    let mut m = String::from_str("d2 exceeded ");
    let t = u64_text(seconds);
    m.append(t.as_str());
    m.append("s timeout");
    D2McpError::Timeout(m)
}

/// The failure of a run whose program could not be started: the program's
/// name, then the text of the I/O error (what `to_string` gives for it).
pub fn start_error(program: &str, error: &std::io::Error) -> (r: D2McpError)
    ensures
        r matches D2McpError::Backend(m) && exists|t: String|
            to_string_from_display_ensures::<std::io::Error>(error, t) && m@ == "failed to start "@
                + program@ + ": "@ + t@,
{
    let mut m = String::from_str("failed to start ");
    m.append(program);
    m.append(": ");
    let t = error.to_string();
    m.append(t.as_str());
    D2McpError::Backend(m)
}

} // verus!
