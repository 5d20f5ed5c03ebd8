use vstd::prelude::*;
use vstd::utf8::{decode_utf8, encode_utf8, valid_utf8};

use crate::command::{diagnostic_cut_ok, truncated_diagnostic};
use crate::config::{setting_limit, MAX_DIAGNOSTIC_BYTES, MAX_TIMEOUT_SECONDS};
use crate::model::{format_extension, D2OutputFormat};
use crate::paths::{
    default_output_dir, default_output_path, DOT, SLASH, has_parent_component, has_root,
    parent_component_at, stays_inside,
};
use crate::policy::{has_remote_reference, remote_assets_message, requested_timeout, source_refusal};
use crate::text::{trim_end, trim_start, all_ascii, hex_lower, lemma_encode_ascii, lemma_encode_utf8_concat, lemma_hex_lower_ascii};
use crate::config::D2Config;
use crate::model::D2RenderArgs;
use crate::paths::{
    body_start, displayed_path, join_path, law_display_returns_requested_path,
    law_resolved_path_stays_in_workdir, starts_with_dir, trim_back, trim_front,
};
use crate::render::{render_refusal, render_relative_path};
use crate::tools::{source_call_refusal, timeout_refused};

verus! {

/// Remote assets are blocked unless the call allows them: a source that
/// is not empty and within the size limit is refused for its remote
/// references exactly when it has some and the call did not allow them.
pub proof fn law_remote_assets_blocked_unless_allowed(
    source: Seq<char>,
    allow_remote_assets: bool,
    max_source_bytes: usize,
)
    requires
        source.len() > 0,
        encode_utf8(source).len() <= max_source_bytes,
    ensures
        source_refusal(source, allow_remote_assets, max_source_bytes) == (if !allow_remote_assets
            && has_remote_reference(source) {
            Some(remote_assets_message())
        } else {
            None
        }),
        source_refusal(source, true, max_source_bytes) is None,
{
}

/// Every accepted time limit lies between 1 second and the maximum.
pub proof fn law_timeout_bounded(timeout_seconds: Option<u64>)
    requires
        !timeout_refused(timeout_seconds),
    ensures
        1 <= requested_timeout(timeout_seconds) <= MAX_TIMEOUT_SECONDS,
{
}

/// A size limit taken from a setting is always positive when its default
/// is.
pub proof fn law_setting_limit_positive(value: Option<Seq<char>>, default_value: usize)
    requires
        default_value > 0,
    ensures
        setting_limit(value, default_value) > 0,
{
}

/// A lowercase hexadecimal digit.
pub open spec fn is_hex_digit(c: char) -> bool {
    (48 <= c as u32 <= 57) || (97 <= c as u32 <= 102)
}

proof fn lemma_hex_lower_digits(bytes: Seq<u8>)
    ensures
        forall|i: int| 0 <= i < hex_lower(bytes).len() ==> is_hex_digit(#[trigger] hex_lower(bytes)[i]),
    decreases bytes.len(),
{
    lemma_hex_lower_ascii(bytes);
    if bytes.len() > 0 {
        lemma_hex_lower_digits(bytes.drop_last());
        lemma_hex_lower_ascii(bytes.drop_last());
        let h = hex_lower(bytes);
        let prev = hex_lower(bytes.drop_last());
        assert forall|i: int| 0 <= i < h.len() implies is_hex_digit(#[trigger] h[i]) by {
            if i < prev.len() {
                assert(h[i] == prev[i]);
            }
        }
    }
}

/// The name of the directory renders go to by default, as text.
pub open spec fn default_output_dir_text() -> Seq<char> {
    seq!['.', 'd', '2', '-', 'm', 'c', 'p', '-', 'o', 'u', 't', 'p', 'u', 't']
}

/// The default output path as text: `.d2-mcp-output/`, the first sixteen
/// characters of the digest, `.` and the extension.
pub open spec fn default_output_text(sha: Seq<char>, format: D2OutputFormat) -> Seq<char> {
    default_output_dir_text() + seq!['/'] + sha.take(16) + seq!['.'] + format_extension(format)
}

/// A render call that names no output path always passes the output path
/// check: for the 32-byte digest of any source, the file is the UTF-8 of
/// `.d2-mcp-output/`, the first sixteen hexadecimal digits of the digest,
/// `.` and the format's extension.
pub proof fn law_default_output_path_accepted(digest: Seq<u8>, format: D2OutputFormat)
    requires
        digest.len() == 32,
    ensures
        ({
            let sha = hex_lower(digest);
            &&& default_output_path(sha, format) == encode_utf8(default_output_text(sha, format))
            &&& stays_inside(default_output_path(sha, format))
        }),
{
    let sha = hex_lower(digest);
    lemma_hex_lower_ascii(digest);
    lemma_hex_lower_digits(digest);
    lemma_encode_ascii(sha);
    let ext = format_extension(format);
    assert(all_ascii(ext));
    lemma_encode_ascii(ext);
    let text = default_output_text(sha, format);
    let dir = default_output_dir();
    let dir_text = default_output_dir_text();
    assert(all_ascii(text)) by {
        assert forall|i: int| 0 <= i < text.len() implies (#[trigger] text[i] as u32) < 0x80 by {
            if 15 <= i < 31 {
                assert(text[i] == sha[i - 15]);
            } else if i >= 32 {
                assert(text[i] == ext[i - 32]);
            }
        }
    }
    lemma_encode_ascii(text);
    let hex = encode_utf8(sha).subrange(0, 16);
    let name = hex + seq![DOT] + encode_utf8(ext);
    let p = dir + seq![SLASH] + name;
    assert(is_hex_digit(sha[0]));
    assert(!has_root(name));
    assert(default_output_path(sha, format) =~= p);
    assert(p.len() == 35);
    assert(p =~= encode_utf8(text)) by {
        assert forall|i: int| 0 <= i < 35 implies p[i] == encode_utf8(text)[i] by {
            if i < 14 {
                assert(p[i] == dir[i]);
                assert(text[i] == dir_text[i]);
            } else if 15 <= i < 31 {
                assert(p[i] == encode_utf8(sha)[i - 15]);
                assert(text[i] == sha[i - 15]);
            } else if i >= 32 {
                assert(p[i] == encode_utf8(ext)[i - 32]);
                assert(text[i] == ext[i - 32]);
            }
        }
    }
    assert forall|i: int| !parent_component_at(p, i) by {
        if 0 <= i && i + 1 < p.len() {
            if i < 14 {
                assert(p[i] == dir[i]);
                assert(p[i + 1] == (if i + 1 < 14 { dir[i + 1] } else { SLASH }));
            } else if i == 14 {
                assert(p[i] == SLASH);
            } else if i < 31 {
                assert(p[i] == encode_utf8(sha)[i - 15]);
                assert(is_hex_digit(sha[i - 15]));
            } else if i == 31 {
                assert(p[i + 1] == encode_utf8(ext)[0]);
            } else {
                assert(p[i] == encode_utf8(ext)[i - 32]);
            }
        }
    }
    assert(!has_parent_component(p));
}

/// A render call that names no output path reports the default file as it
/// was named: whatever the working directory, the shown path is the
/// default path itself, `.d2-mcp-output/`, the first sixteen hexadecimal
/// digits of the source's 32-byte digest, `.` and the format's extension.
pub proof fn law_default_output_path_displayed(
    workdir: Seq<u8>,
    digest: Seq<u8>,
    format: D2OutputFormat,
)
    requires
        digest.len() == 32,
    ensures
        ({
            let rel = default_output_path(hex_lower(digest), format);
            &&& displayed_path(workdir, join_path(workdir, rel)) == rel
            &&& valid_utf8(rel)
            &&& decode_utf8(rel) == default_output_text(hex_lower(digest), format)
        }),
{
    let sha = hex_lower(digest);
    let rel = default_output_path(sha, format);
    law_default_output_path_accepted(digest, format);
    law_display_returns_requested_path(workdir, rel);
    lemma_hex_lower_ascii(digest);
    vstd::utf8::encode_utf8_valid_utf8(default_output_text(sha, format));
    vstd::utf8::encode_utf8_decode_utf8(default_output_text(sha, format));
    lemma_hex_lower_digits(digest);
    lemma_encode_ascii(sha);
    let ext = format_extension(format);
    assert(all_ascii(ext));
    lemma_encode_ascii(ext);
    let name = encode_utf8(sha).subrange(0, 16) + seq![DOT] + encode_utf8(ext);
    assert(is_hex_digit(sha[0]));
    assert(!has_root(name));
    assert(rel =~= default_output_dir() + seq![SLASH] + name);
    assert(rel.len() == 35);
    assert(rel[0] == DOT);
    assert(rel[1] == 100);
    assert(rel.last() == 103);
    assert(trim_front(rel) == rel);
    assert(body_start(rel) == 0);
    assert(trim_back(rel, 0) == rel);
}

proof fn lemma_trim_start_shorter(s: Seq<char>)
    ensures
        encode_utf8(trim_start(s)).len() <= encode_utf8(s).len(),
    decreases s.len(),
{
    if s.len() > 0 && crate::text::is_whitespace(s[0]) {
        lemma_trim_start_shorter(s.drop_first());
    }
}

proof fn lemma_trim_end_shorter(s: Seq<char>)
    ensures
        encode_utf8(trim_end(s)).len() <= encode_utf8(s).len(),
    decreases s.len(),
{
    if s.len() > 0 && crate::text::is_whitespace(s.last()) {
        lemma_trim_end_shorter(s.drop_last());
        assert(s =~= s.drop_last() + seq![s.last()]);
        lemma_encode_utf8_concat(s.drop_last(), seq![s.last()]);
    }
}

/// Reported diagnostics never exceed the diagnostics limit by more than the
/// `[truncated]` marker line: at most `MAX_DIAGNOSTIC_BYTES + 12` bytes.
pub proof fn law_diagnostics_bounded(text: Seq<char>)
    requires
        diagnostic_cut_ok(text),
    ensures
        encode_utf8(truncated_diagnostic(text)).len() <= MAX_DIAGNOSTIC_BYTES + 12,
{
    let bytes = encode_utf8(text);
    if bytes.len() <= MAX_DIAGNOSTIC_BYTES {
        lemma_trim_start_shorter(text);
        lemma_trim_end_shorter(trim_start(text));
    } else {
        vstd::utf8::encode_utf8_valid_utf8(text);
        vstd::utf8::valid_utf8_split(bytes, MAX_DIAGNOSTIC_BYTES as int);
        let head = bytes.subrange(0, MAX_DIAGNOSTIC_BYTES as int);
        vstd::utf8::decode_utf8_encode_utf8(head);
        reveal_strlit("\n[truncated]");
        lemma_encode_ascii("\n[truncated]"@);
        lemma_encode_utf8_concat(decode_utf8(head), "\n[truncated]"@);
    }
}

/// A render that is not refused writes inside the working directory: its
/// requested path passes the output path check, and the file it writes,
/// the working directory joined with that path, has every `..` component
/// within the working directory's own name.
pub proof fn law_render_output_inside_workdir(args: D2RenderArgs, config: D2Config)
    requires
        render_refusal(args, config) is None,
    ensures
        stays_inside(render_relative_path(args)),
        config.workdir@.len() > 0 ==> starts_with_dir(
            join_path(config.workdir@, render_relative_path(args)),
            config.workdir@,
        ),
        forall|i: int|
            parent_component_at(join_path(config.workdir@, render_relative_path(args)), i) ==> i
                + 2 <= config.workdir@.len(),
{
    law_resolved_path_stays_in_workdir(config.workdir@, render_relative_path(args));
}

/// The tools judge a source alike: where the source rules refuse a source,
/// validate, format and render all refuse it with the same message, before
/// any other rule is looked at.
pub proof fn law_tools_share_source_rules(args: D2RenderArgs, timeout_seconds: Option<u64>, config: D2Config)
    requires
        source_refusal(args.source@, args.allow_remote_assets, config.max_source_bytes) is Some,
    ensures
        source_call_refusal(args.source@, args.allow_remote_assets, timeout_seconds, config)
            == source_refusal(args.source@, args.allow_remote_assets, config.max_source_bytes),
        render_refusal(args, config) == source_refusal(
            args.source@,
            args.allow_remote_assets,
            config.max_source_bytes,
        ),
{
}

} // verus!
