use vstd::prelude::*;

use crate::paths::DOT;
use crate::text::str_chars;

verus! {

/// Source text limit, in bytes, when none is configured.
pub const DEFAULT_MAX_SOURCE_BYTES: usize = 1024 * 1024;

/// Rendered artifact limit, in bytes, when none is configured.
pub const DEFAULT_MAX_RENDER_BYTES: usize = 16 * 1024 * 1024;

/// Time limit for one `d2` run, in seconds, when the call names none.
pub const DEFAULT_TIMEOUT_SECONDS: u64 = 20;

/// Largest time limit a call may ask for, in seconds.
pub const MAX_TIMEOUT_SECONDS: u64 = 120;

/// Diagnostics longer than this many bytes are cut.
pub const MAX_DIAGNOSTIC_BYTES: usize = 32 * 1024;

/// Rendered SVG up to this many bytes is returned inline when asked for.
pub const MAX_INLINE_SVG_BYTES: usize = 256 * 1024;

/// Where the server finds `d2`, where it may write, and how much it accepts.
#[derive(Debug, Clone)]
pub struct D2Config {
    /// The `d2` executable: a path or a command name.
    pub d2_binary: String,
    /// The only directory rendered files may be written to: its path, as
    /// bytes (a Unix path need not be UTF-8).
    pub workdir: Vec<u8>,
    /// Largest accepted source text, in bytes.
    pub max_source_bytes: usize,
    /// Largest accepted rendered artifact, in bytes.
    pub max_render_bytes: usize,
}

/// The value of a digit character.
pub open spec fn digit_value(c: char) -> nat {
    (c as u32 - 48) as nat
}

/// `c` is one of `0`..`9`.
pub open spec fn is_digit(c: char) -> bool {
    48 <= c as u32 <= 57
}

/// The number a sequence of decimal digits denotes.
pub open spec fn digits_value(s: Seq<char>) -> nat
    decreases s.len(),
{
    if s.len() == 0 {
        0
    } else {
        digits_value(s.drop_last()) * 10 + digit_value(s.last())
    }
}

/// The digits of an unsigned number's text: after one optional `+`.
pub open spec fn unsigned_digits(s: Seq<char>) -> Seq<char> {
    if s.len() > 0 && s[0] == '+' {
        s.drop_first()
    } else {
        s
    }
}

/// What `usize::from_str` accepts and returns: an optional `+`, then one or
/// more decimal digits whose value fits in `usize`.
pub open spec fn parsed_usize(s: Seq<char>) -> Option<usize> {
    let d = unsigned_digits(s);
    if d.len() > 0 && (forall|i: int| 0 <= i < d.len() ==> is_digit(#[trigger] d[i]))
        && digits_value(d) <= usize::MAX {
        Some(digits_value(d) as usize)
    } else {
        None
    }
}

proof fn lemma_digits_value_monotone(s: Seq<char>, i: int)
    requires
        0 <= i <= s.len(),
        forall|k: int| 0 <= k < s.len() ==> is_digit(#[trigger] s[k]),
    ensures
        digits_value(s.take(i)) <= digits_value(s),
    decreases s.len() - i,
{
    if i < s.len() {
        lemma_digits_value_monotone(s, i + 1);
        assert(s.take(i + 1).drop_last() =~= s.take(i));
    } else {
        assert(s.take(i) =~= s);
    }
}

/// Parses a decimal `usize` as `usize::from_str` does.
pub fn parse_usize(text: &str) -> (r: Option<usize>)
    ensures
        r == parsed_usize(text@),
{
    let chars = str_chars(text);
    let n = chars.len();
    let start: usize = if n > 0 && chars[0] == '+' {
        1
    } else {
        0
    };
    let ghost d = unsigned_digits(text@);
    assert(d =~= chars@.skip(start as int));
    if start == n {
        return None;
    }
    let mut value: usize = 0;
    let mut i: usize = start;
    while i < n
        invariant
            chars@ == text@,
            n == chars@.len(),
            d == chars@.skip(start as int),
            d == unsigned_digits(text@),
            start <= i <= n,
            forall|k: int| 0 <= k < i - start ==> is_digit(#[trigger] d[k]),
            value == digits_value(d.take(i - start)),
        decreases n - i,
    {
        let c = chars[i];
        let cu = c as u32;
        assert(d[i - start] == c);
        if !(48 <= cu && cu <= 57) {
            assert(!is_digit(d[i - start]));
            return None;
        }
        let dv: usize = (cu - 48) as usize;
        assert(d.take(i - start + 1).drop_last() =~= d.take(i - start));
        let ghost prefix_len: int = i - start + 1;
        assert(digits_value(d.take(prefix_len)) == value * 10 + dv);
        match value.checked_mul(10) {
            Some(m) => match m.checked_add(dv) {
                Some(v) => {
                    value = v;
                },
                None => {
                    proof {
                        if forall|k: int| 0 <= k < d.len() ==> is_digit(#[trigger] d[k]) {
                            lemma_digits_value_monotone(d, prefix_len);
                        }
                    }
                    return None;
                },
            },
            None => {
                proof {
                    if forall|k: int| 0 <= k < d.len() ==> is_digit(#[trigger] d[k]) {
                        lemma_digits_value_monotone(d, prefix_len);
                    }
                }
                return None;
            },
        }
        i = i + 1;
    }
    assert(d.take(n - start) =~= d);
    Some(value)
}

/// A size limit taken from a setting: the setting's value when it parses as a
/// positive `usize`, else the default.
pub open spec fn setting_limit(value: Option<Seq<char>>, default_value: usize) -> usize {
    match value {
        Some(v) => match parsed_usize(v) {
            Some(n) => if n > 0 {
                n
            } else {
                default_value
            },
            None => default_value,
        },
        None => default_value,
    }
}

/// A size limit from the value of an environment variable (`None` where the
/// variable is unset or not Unicode): the value when it is a positive decimal
/// `usize`, else `default_value`.
pub fn env_usize(value: Option<&str>, default_value: usize) -> (r: usize)
    ensures
        r == setting_limit(
            match value {
                Some(v) => Some(v@),
                None => None,
            },
            default_value,
        ),
{
    match value {
        Some(v) => match parse_usize(v) {
            Some(n) => if n > 0 {
                n
            } else {
                default_value
            },
            None => default_value,
        },
        None => default_value,
    }
}

/// The view of an optional string.
pub open spec fn opt_view(o: Option<String>) -> Option<Seq<char>> {
    match o {
        Some(s) => Some(s@),
        None => None,
    }
}

/// The directory the server writes to: the configured one, else the
/// current directory, else `.`.
pub open spec fn chosen_workdir(workdir: Option<Vec<u8>>, current_dir: Option<Vec<u8>>) -> Seq<u8> {
    match workdir {
        Some(w) => w@,
        None => match current_dir {
            Some(c) => c@,
            None => seq![DOT],
        },
    }
}

impl D2Config {
    /// The configuration from the server's settings: the `d2` executable
    /// (`d2` when unset), the working directory (the process's current
    /// directory when unset, `.` when that is unknown too), and the two size
    /// limits (their defaults when unset, not a positive number, or too
    /// large). The directories are paths as bytes.
    pub fn from_env_values(
        d2_binary: Option<String>,
        workdir: Option<Vec<u8>>,
        current_dir: Option<Vec<u8>>,
        max_source_bytes: Option<String>,
        max_render_bytes: Option<String>,
    ) -> (r: D2Config)
        ensures
            r.d2_binary@ == match d2_binary {
                Some(b) => b@,
                None => "d2"@,
            },
            r.workdir@ == chosen_workdir(workdir, current_dir),
            r.max_source_bytes == setting_limit(opt_view(max_source_bytes), DEFAULT_MAX_SOURCE_BYTES),
            r.max_render_bytes == setting_limit(opt_view(max_render_bytes), DEFAULT_MAX_RENDER_BYTES),
    {
        let d2_binary = match d2_binary {
            Some(b) => b,
            None => String::from_str("d2"),
        };
        let workdir = match workdir {
            Some(w) => w,
            None => match current_dir {
                Some(c) => c,
                None => vec![DOT],
            },
        };
        let max_source = match &max_source_bytes {
            Some(v) => env_usize(Some(v.as_str()), DEFAULT_MAX_SOURCE_BYTES),
            None => env_usize(None, DEFAULT_MAX_SOURCE_BYTES),
        };
        let max_render = match &max_render_bytes {
            Some(v) => env_usize(Some(v.as_str()), DEFAULT_MAX_RENDER_BYTES),
            None => env_usize(None, DEFAULT_MAX_RENDER_BYTES),
        };
        D2Config { d2_binary, workdir, max_source_bytes: max_source, max_render_bytes: max_render }
    }
}

} // verus!
