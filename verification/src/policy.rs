use vstd::prelude::*;
use vstd::utf8::encode_utf8;

use crate::config::{D2Config, DEFAULT_TIMEOUT_SECONDS, MAX_TIMEOUT_SECONDS};
use crate::error::D2McpError;
use crate::model::D2RenderArgs;
use crate::text::{decimal, str_chars, u64_text};

verus! {

/// `c` with ASCII capitals turned to lower case, as `to_ascii_lowercase` does.
pub open spec fn ascii_lower(c: char) -> char {
    if 65 <= c as u32 <= 90 {
        ((c as u32) + 32) as char
    } else {
        c
    }
}

/// `pat` occurs in `s` at index `i` once `s` is lowercased.
pub open spec fn lower_matches_at(s: Seq<char>, i: int, pat: Seq<char>) -> bool {
    &&& 0 <= i
    &&& i + pat.len() <= s.len()
    &&& forall|k: int| 0 <= k < pat.len() ==> ascii_lower(#[trigger] s[i + k]) == pat[k]
}

/// The lowercased `s` contains `pat`.
pub open spec fn contains_lower(s: Seq<char>, pat: Seq<char>) -> bool {
    exists|i: int| lower_matches_at(s, i, pat)
}

/// `http://`.
pub open spec fn http_scheme() -> Seq<char> {
    seq!['h', 't', 't', 'p', ':', '/', '/']
}

/// `https://`.
pub open spec fn https_scheme() -> Seq<char> {
    seq!['h', 't', 't', 'p', 's', ':', '/', '/']
}

/// The source refers to a remote asset: `http://` or `https://` in any mix
/// of upper and lower case.
pub open spec fn has_remote_reference(source: Seq<char>) -> bool {
    contains_lower(source, http_scheme()) || contains_lower(source, https_scheme())
}

fn lower_char(c: char) -> (r: char)
    ensures
        r == ascii_lower(c),
{
    let u = c as u32;
    if 65 <= u && u <= 90 {
        ((u + 32) as u8) as char
    } else {
        c
    }
}

fn lower_match_at(s: &Vec<char>, i: usize, pat: &Vec<char>) -> (r: bool)
    requires
        i + pat@.len() <= s@.len(),
    ensures
        r == lower_matches_at(s@, i as int, pat@),
{
    let n = pat.len();
    let slen = s.len();
    for k in 0..n
        invariant
            n == pat@.len(),
            i + n <= slen,
            slen == s@.len(),
            forall|j: int| 0 <= j < k ==> ascii_lower(#[trigger] s@[i + j]) == pat@[j],
    {
        if lower_char(s[i + k]) != pat[k] {
            assert(ascii_lower(s@[i + k]) != pat@[k as int]);
            return false;
        }
    }
    true
}

fn find_lower(s: &Vec<char>, pat: &Vec<char>) -> (r: bool)
    ensures
        r == contains_lower(s@, pat@),
{
    if pat.len() > s.len() {
        assert forall|i: int| !lower_matches_at(s@, i, pat@) by {}
        return false;
    }
    if pat.len() == 0 {
        assert(lower_matches_at(s@, 0, pat@));
        return true;
    }
    let last = s.len() - pat.len();
    let mut i: usize = 0;
    while i <= last
        invariant
            last == s@.len() - pat@.len(),
            0 < pat@.len() <= s@.len(),
            s@.len() <= usize::MAX,
            forall|j: int| 0 <= j < i ==> !lower_matches_at(s@, j, pat@),
        decreases last + 1 - i,
    {
        if lower_match_at(s, i, pat) {
            return true;
        }
        i = i + 1;
    }
    assert forall|j: int| !lower_matches_at(s@, j, pat@) by {
        if 0 <= j < i {
        }
    }
    false
}

/// Whether the source holds an `http://` or `https://` reference, compared
/// without regard to ASCII case.
pub fn contains_remote_asset_reference(source: &str) -> (r: bool)
    ensures
        r == has_remote_reference(source@),
{
    let chars = str_chars(source);
    let http = vec!['h', 't', 't', 'p', ':', '/', '/'];
    let https = vec!['h', 't', 't', 'p', 's', ':', '/', '/'];
    assert(http@ =~= http_scheme());
    assert(https@ =~= https_scheme());
    find_lower(&chars, &http) || find_lower(&chars, &https)
}

/// The message for a source that exceeds the limit.
pub open spec fn source_too_large_message(len: nat, limit: nat) -> Seq<char> {
    "source is "@ + decimal(len) + " bytes, limit is "@ + decimal(limit) + " bytes"@
}

/// The message for a source that refers to remote assets.
pub open spec fn remote_assets_message() -> Seq<char> {
    "source contains http:// or https:// references; pass allow_remote_assets=true only when remote asset fetches are expected"@
}

/// Why a source is refused, if it is: it is empty, it is longer than the
/// configured limit in bytes, or it refers to remote assets that the call did
/// not allow. The first rule broken decides the message.
pub open spec fn source_refusal(
    source: Seq<char>,
    allow_remote_assets: bool,
    max_source_bytes: usize,
) -> Option<Seq<char>> {
    if source.len() == 0 {
        Some("source is empty"@)
    } else if encode_utf8(source).len() > max_source_bytes {
        Some(source_too_large_message(encode_utf8(source).len(), max_source_bytes as nat))
    } else if !allow_remote_assets && has_remote_reference(source) {
        Some(remote_assets_message())
    } else {
        None
    }
}

/// The result that a refusal, or its absence, stands for.
pub open spec fn refused_as(r: Result<(), D2McpError>, refusal: Option<Seq<char>>) -> bool {
    match refusal {
        Some(m) => r matches Err(D2McpError::InvalidInput(e)) && e@ == m,
        None => r is Ok,
    }
}

/// Checks D2 source against the size limit and the remote asset policy.
pub fn validate_source(source: &str, allow_remote_assets: bool, config: &D2Config) -> (r: Result<
    (),
    D2McpError,
>)
    ensures
        refused_as(r, source_refusal(source@, allow_remote_assets, config.max_source_bytes)),
{
    let len = source.as_bytes().len();
    if source.is_empty() {
        return Err(D2McpError::InvalidInput(String::from_str("source is empty")));
    }
    if len > config.max_source_bytes {
        let mut m = String::from_str("source is ");
        let a = u64_text(len as u64);
        m.append(a.as_str());
        m.append(" bytes, limit is ");
        let b = u64_text(config.max_source_bytes as u64);
        m.append(b.as_str());
        m.append(" bytes");
        assert(m@ =~= source_too_large_message(encode_utf8(source@).len(), config.max_source_bytes as nat));
        return Err(D2McpError::InvalidInput(m));
    }
    if !allow_remote_assets && contains_remote_asset_reference(source) {
        let m = String::from_str(
            "source contains http:// or https:// references; pass allow_remote_assets=true only when remote asset fetches are expected",
        );
        assert(m@ == remote_assets_message());
        return Err(D2McpError::InvalidInput(m));
    }
    Ok(())
}

/// The message for a time limit out of range.
pub open spec fn timeout_message() -> Seq<char> {
    "timeout_seconds must be between 1 and 120"@
}

/// The time limit a call asks for: its own, else the default.
pub open spec fn requested_timeout(value: Option<u64>) -> u64 {
    match value {
        Some(s) => s,
        None => DEFAULT_TIMEOUT_SECONDS,
    }
}

/// The time limit for a call, in seconds: the requested one (the default
/// when none is given), which must lie between 1 and the maximum.
pub fn timeout_from_args(value: Option<u64>) -> (r: Result<u64, D2McpError>)
    ensures
        ({
            let s = requested_timeout(value);
            if s == 0 || s > MAX_TIMEOUT_SECONDS {
                r matches Err(D2McpError::InvalidInput(e)) && e@ == timeout_message()
            } else {
                r == Ok::<u64, D2McpError>(s)
            }
        }),
{
    let seconds = match value {
        Some(s) => s,
        None => DEFAULT_TIMEOUT_SECONDS,
    };
    if seconds == 0 || seconds > MAX_TIMEOUT_SECONDS {
        return Err(D2McpError::InvalidInput(String::from_str("timeout_seconds must be between 1 and 120")));
    }
    Ok(seconds)
}

/// Highest theme id `d2` knows.
pub const MAX_THEME_ID: i64 = 303;

/// A character allowed in a layout engine name: an ASCII letter or digit,
/// `-` or `_`.
pub open spec fn layout_char_ok(c: char) -> bool {
    let u = c as u32;
    ||| 48 <= u <= 57
    ||| 65 <= u <= 90
    ||| 97 <= u <= 122
    ||| c == '-'
    ||| c == '_'
}

/// A layout engine name: 1 to 32 bytes of ASCII letters, digits, `-` or `_`.
pub open spec fn layout_ok(layout: Seq<char>) -> bool {
    &&& layout.len() > 0
    &&& encode_utf8(layout).len() <= 32
    &&& forall|i: int| 0 <= i < layout.len() ==> layout_char_ok(#[trigger] layout[i])
}

/// The message for a layout name that is refused.
pub open spec fn layout_message() -> Seq<char> {
    "layout must be 1-32 chars and contain only ASCII letters, digits, '-' or '_'"@
}

/// The view of an optional string argument.
pub open spec fn opt_str(o: Option<String>) -> Option<Seq<char>> {
    match o {
        Some(s) => Some(s@),
        None => None,
    }
}

/// Why the render options are refused, if they are: a theme outside
/// 0..=303, a dark theme outside -1..=303, a padding outside 0..=1000, or a
/// layout name that is not 1 to 32 bytes of ASCII letters, digits, `-`
/// and `_`. They are checked in that order.
pub open spec fn render_args_refusal(
    theme: Option<i64>,
    dark_theme: Option<i64>,
    pad: Option<i64>,
    layout: Option<Seq<char>>,
) -> Option<Seq<char>> {
    if theme matches Some(t) && !(0 <= t <= MAX_THEME_ID) {
        Some("theme must be between 0 and 303"@)
    } else if dark_theme matches Some(t) && !(-1 <= t <= MAX_THEME_ID) {
        Some("dark_theme must be between -1 and 303"@)
    } else if pad matches Some(p) && !(0 <= p <= 1000) {
        Some("pad must be between 0 and 1000"@)
    } else if layout matches Some(l) && !layout_ok(l) {
        Some(layout_message())
    } else {
        None
    }
}

fn layout_chars_ok(layout: &str) -> (r: bool)
    ensures
        r == (forall|i: int| 0 <= i < layout@.len() ==> layout_char_ok(#[trigger] layout@[i])),
{
    let chars = str_chars(layout);
    let n = chars.len();
    for i in 0..n
        invariant
            n == chars@.len(),
            chars@ == layout@,
            forall|j: int| 0 <= j < i ==> layout_char_ok(#[trigger] layout@[j]),
    {
        let c = chars[i];
        let u = c as u32;
        if !((48 <= u && u <= 57) || (65 <= u && u <= 90) || (97 <= u && u <= 122) || c == '-'
            || c == '_') {
            assert(!layout_char_ok(layout@[i as int]));
            return false;
        }
    }
    true
}

/// Checks the theme, dark theme, padding and layout options of a render call.
pub fn validate_render_args(args: &D2RenderArgs) -> (r: Result<(), D2McpError>)
    ensures
        refused_as(
            r,
            render_args_refusal(args.theme, args.dark_theme, args.pad, opt_str(args.layout)),
        ),
{
    if let Some(theme) = args.theme {
        if !(0 <= theme && theme <= MAX_THEME_ID) {
            return Err(D2McpError::InvalidInput(String::from_str("theme must be between 0 and 303")));
        }
    }
    if let Some(dark_theme) = args.dark_theme {
        if !(-1 <= dark_theme && dark_theme <= MAX_THEME_ID) {
            return Err(D2McpError::InvalidInput(String::from_str("dark_theme must be between -1 and 303")));
        }
    }
    if let Some(pad) = args.pad {
        if !(0 <= pad && pad <= 1000) {
            return Err(D2McpError::InvalidInput(String::from_str("pad must be between 0 and 1000")));
        }
    }
    if let Some(layout) = &args.layout {
        let l = layout.as_str();
        if l.is_empty() || l.as_bytes().len() > 32 || !layout_chars_ok(l) {
            return Err(D2McpError::InvalidInput(String::from_str(
                "layout must be 1-32 chars and contain only ASCII letters, digits, '-' or '_'",
            )));
        }
    }
    Ok(())
}

} // verus!
