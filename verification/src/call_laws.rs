use vstd::prelude::*;
use vstd::utf8::encode_utf8;

use crate::config::{digits_value, parsed_usize, setting_limit};
use crate::paths::{join_path, relative_path_refusal, requested_output_path};
use crate::policy::{requested_timeout, source_refusal,
    ascii_lower, has_remote_reference, http_scheme, https_scheme, lower_matches_at, render_args_refusal};
use crate::command::ArgView;
use crate::model::{format_extension, D2RenderArgs};
use crate::render::{number_option, render_command_args};
use crate::tools::timeout_refused;
use crate::text::{decimal, signed_decimal};

verus! {

// Laws on what each check of a tool call accepts and refuses, stated on the
// values themselves: byte values, number ranges and characters.

/// Bytes `p[i]`, `p[i + 1]` are a `..` component: two dots with a `/` or an
/// end of the path on each side.
pub open spec fn dot_dot_component_at(p: Seq<u8>, i: int) -> bool {
    &&& 0 <= i
    &&& i + 2 <= p.len()
    &&& p[i] == 46u8
    &&& p[i + 1] == 46u8
    &&& (i == 0 || p[i - 1] == 47u8)
    &&& (i + 2 == p.len() || p[i + 2] == 47u8)
}

/// The output path check accepts every path it should, whatever its length
/// or its other bytes: a non-empty path that does not start with `/` and
/// has no `..` component passes.
pub proof fn law_relative_paths_accepted(p: Seq<u8>)
    requires
        p.len() > 0,
        p[0] != 47u8,
        forall|i: int| !dot_dot_component_at(p, i),
    ensures
        relative_path_refusal(p) is None,
{
    assert forall|i: int| !crate::paths::parent_component_at(p, i) by {
        assert(!dot_dot_component_at(p, i));
    }
}

/// The output path check refuses exactly what it should: an empty path as
/// empty, and a path that starts at `/` or holds a `..` component as
/// leaving the working directory.
pub proof fn law_escaping_paths_refused(p: Seq<u8>, i: int)
    ensures
        p.len() == 0 ==> relative_path_refusal(p) == Some("output_path is empty"@),
        p.len() > 0 && p[0] == 47u8 ==> relative_path_refusal(p) == Some(
            "output_path must be relative and stay inside D2_MCP_WORKDIR"@,
        ),
        p.len() > 0 && dot_dot_component_at(p, i) ==> relative_path_refusal(p) == Some(
            "output_path must be relative and stay inside D2_MCP_WORKDIR"@,
        ),
{
    if p.len() > 0 && dot_dot_component_at(p, i) {
        assert(crate::paths::parent_component_at(p, i));
    }
}

/// A layout name of ASCII letters, digits, `-` and `_`.
pub open spec fn layout_name_chars(l: Seq<char>) -> bool {
    forall|i: int|
        0 <= i < l.len() ==> {
            let u = #[trigger] l[i] as u32;
            (48 <= u <= 57) || (65 <= u <= 90) || (97 <= u <= 122) || l[i] == '-' || l[i] == '_'
        }
}

/// Every accepted set of render options lies in range: a theme in 0..=303,
/// a dark theme in -1..=303, a padding in 0..=1000, and a layout of 1 to 32
/// bytes of ASCII letters, digits, `-` and `_`.
pub proof fn law_accepted_render_options_in_range(
    theme: Option<i64>,
    dark_theme: Option<i64>,
    pad: Option<i64>,
    layout: Option<Seq<char>>,
)
    requires
        render_args_refusal(theme, dark_theme, pad, layout) is None,
    ensures
        theme matches Some(t) ==> 0 <= t <= 303,
        dark_theme matches Some(t) ==> -1 <= t <= 303,
        pad matches Some(p) ==> 0 <= p <= 1000,
        layout matches Some(l) ==> l.len() > 0 && encode_utf8(l).len() <= 32 && layout_name_chars(l),
{
    if let Some(l) = layout {
        assert forall|i: int| 0 <= i < l.len() implies {
            let u = #[trigger] l[i] as u32;
            (48 <= u <= 57) || (65 <= u <= 90) || (97 <= u <= 122) || l[i] == '-' || l[i] == '_'
        } by {
            assert(crate::policy::layout_char_ok(l[i]));
        }
    }
}

/// Every render option set in range is accepted: the checks refuse nothing
/// more than the ranges.
pub proof fn law_render_options_in_range_accepted(
    theme: Option<i64>,
    dark_theme: Option<i64>,
    pad: Option<i64>,
    layout: Option<Seq<char>>,
)
    requires
        theme matches Some(t) ==> 0 <= t <= 303,
        dark_theme matches Some(t) ==> -1 <= t <= 303,
        pad matches Some(p) ==> 0 <= p <= 1000,
        layout matches Some(l) ==> l.len() > 0 && encode_utf8(l).len() <= 32 && layout_name_chars(l),
    ensures
        render_args_refusal(theme, dark_theme, pad, layout) is None,
{
    if let Some(l) = layout {
        assert forall|i: int| 0 <= i < l.len() implies crate::policy::layout_char_ok(#[trigger] l[i]) by {
            let u = l[i] as u32;
            assert((48 <= u <= 57) || (65 <= u <= 90) || (97 <= u <= 122) || l[i] == '-' || l[i] == '_');
        }
    }
}

/// A padding below zero or above 1000 is refused with the padding message,
/// once the themes pass.
pub proof fn law_pad_out_of_range_refused(pad: i64, layout: Option<Seq<char>>)
    requires
        !(0 <= pad <= 1000),
    ensures
        render_args_refusal(None, None, Some(pad), layout) == Some(
            "pad must be between 0 and 1000"@,
        ),
{
}

/// The decimal text of a number is one or more digits and denotes that
/// number.
pub proof fn lemma_decimal_digits(n: nat)
    ensures
        decimal(n).len() > 0,
        forall|i: int| 0 <= i < decimal(n).len() ==> 48 <= (#[trigger] decimal(n)[i]) as u32 <= 57,
        digits_value(decimal(n)) == n,
    decreases n,
{
    let d0 = (n % 10) as int;
    assert(crate::text::digit_char(d0) as u32 == 48 + d0);
    if n >= 10 {
        lemma_decimal_digits(n / 10);
        let d = decimal(n);
        assert(d.drop_last() =~= decimal(n / 10));
        assert forall|i: int| 0 <= i < d.len() implies 48 <= (#[trigger] d[i]) as u32 <= 57 by {
            if i < d.len() - 1 {
                assert(d[i] == decimal(n / 10)[i]);
            }
        }
        assert(crate::config::digit_value(d.last()) == d0);
        assert(digits_value(d.drop_last()) == n / 10);
        assert(digits_value(d) == digits_value(d.drop_last()) * 10 + crate::config::digit_value(d.last()));
        assert((n / 10) * 10 + n % 10 == n);
    } else {
        let d = decimal(n);
        assert(d.drop_last() =~= Seq::<char>::empty());
        assert(crate::config::digit_value(d.last()) == d0);
        assert(digits_value(d.drop_last()) == 0);
        assert(digits_value(d) == digits_value(d.drop_last()) * 10 + crate::config::digit_value(d.last()));
    }
}

/// A size setting that is a positive number is used as given, however
/// large: written in decimal, with or without a leading `+`, it becomes
/// the limit.
pub proof fn law_positive_setting_used(n: nat, default_value: usize)
    requires
        0 < n <= usize::MAX,
    ensures
        setting_limit(Some(decimal(n)), default_value) == n,
        setting_limit(Some(seq!['+'] + decimal(n)), default_value) == n,
{
    lemma_decimal_digits(n);
    assert(decimal(n)[0] != '+');
    assert((seq!['+'] + decimal(n)).drop_first() =~= decimal(n));
    assert(parsed_usize(decimal(n)) == Some(n as usize));
    assert(parsed_usize(seq!['+'] + decimal(n)) == Some(n as usize));
}

/// Any setting that parses as a positive number is the limit, with no
/// other bound; an unset setting, zero, or text that is not a number leaves
/// the default.
pub proof fn law_setting_limit_values(v: Seq<char>, default_value: usize)
    ensures
        forall|n: usize|
            parsed_usize(v) == Some(n) && n > 0 ==> #[trigger] setting_limit(Some(v), default_value)
                == n,
        parsed_usize(v) == Some(0usize) ==> setting_limit(Some(v), default_value) == default_value,
        parsed_usize(v) is None ==> setting_limit(Some(v), default_value) == default_value,
        setting_limit(None, default_value) == default_value,
{
}

/// A remote reference is seen wherever it stands: text with one keeps it
/// under any text put before or after it.
pub proof fn law_remote_reference_anywhere(a: Seq<char>, b: Seq<char>)
    ensures
        has_remote_reference(a) ==> has_remote_reference(a + b),
        has_remote_reference(b) ==> has_remote_reference(a + b),
{
    let s = a + b;
    assert forall|pat: Seq<char>, i: int| #[trigger] lower_matches_at(a, i, pat) implies lower_matches_at(s, i, pat) by {
        assert forall|k: int| 0 <= k < pat.len() implies ascii_lower(#[trigger] s[i + k]) == pat[k] by {
            assert(s[i + k] == a[i + k]);
            assert(ascii_lower(a[i + k]) == pat[k]);
        }
    }
    assert forall|pat: Seq<char>, i: int| #[trigger] lower_matches_at(b, i, pat) implies lower_matches_at(s, a.len() + i, pat) by {
        assert forall|k: int| 0 <= k < pat.len() implies ascii_lower(#[trigger] s[a.len() + i + k]) == pat[k] by {
            assert(s[a.len() + i + k] == b[i + k]);
            assert(ascii_lower(b[i + k]) == pat[k]);
        }
    }
    if has_remote_reference(b) {
        if crate::policy::contains_lower(b, http_scheme()) {
            let i = choose|i: int| lower_matches_at(b, i, http_scheme());
            assert(lower_matches_at(s, a.len() + i, http_scheme()));
        } else {
            let i = choose|i: int| lower_matches_at(b, i, https_scheme());
            assert(lower_matches_at(s, a.len() + i, https_scheme()));
        }
    }
    if has_remote_reference(a) {
        if crate::policy::contains_lower(a, http_scheme()) {
            let i = choose|i: int| lower_matches_at(a, i, http_scheme());
            assert(lower_matches_at(s, i, http_scheme()));
        } else {
            let i = choose|i: int| lower_matches_at(a, i, https_scheme());
            assert(lower_matches_at(s, i, https_scheme()));
        }
    }
}

/// `http://` and `https://`, in lower or upper case, are remote
/// references wherever they stand in a source, on any line.
pub proof fn law_schemes_refused_anywhere(before: Seq<char>, after: Seq<char>)
    ensures
        has_remote_reference(before + "http://"@ + after),
        has_remote_reference(before + "https://"@ + after),
        has_remote_reference(before + "HTTP://"@ + after),
        has_remote_reference(before + "HTTPS://"@ + after),
{
    reveal_strlit("http://");
    reveal_strlit("https://");
    reveal_strlit("HTTP://");
    reveal_strlit("HTTPS://");
    assert(lower_matches_at("http://"@, 0, http_scheme()));
    assert(lower_matches_at("https://"@, 0, https_scheme()));
    assert(lower_matches_at("HTTP://"@, 0, http_scheme()));
    assert(lower_matches_at("HTTPS://"@, 0, https_scheme()));
    law_remote_reference_anywhere(before, "http://"@);
    law_remote_reference_anywhere(before + "http://"@, after);
    law_remote_reference_anywhere(before, "https://"@);
    law_remote_reference_anywhere(before + "https://"@, after);
    law_remote_reference_anywhere(before, "HTTP://"@);
    law_remote_reference_anywhere(before + "HTTP://"@, after);
    law_remote_reference_anywhere(before, "HTTPS://"@);
    law_remote_reference_anywhere(before + "HTTPS://"@, after);
}

/// A source without a `:` holds no remote reference.
pub proof fn law_no_colon_no_remote_reference(s: Seq<char>)
    requires
        forall|i: int| 0 <= i < s.len() ==> s[i] != ':',
    ensures
        !has_remote_reference(s),
{
    assert forall|i: int| !lower_matches_at(s, i, http_scheme()) by {
        if lower_matches_at(s, i, http_scheme()) {
            assert(ascii_lower(s[i + 4]) == http_scheme()[4]);
        }
    }
    assert forall|i: int| !lower_matches_at(s, i, https_scheme()) by {
        if lower_matches_at(s, i, https_scheme()) {
            assert(ascii_lower(s[i + 5]) == https_scheme()[5]);
        }
    }
}

proof fn lemma_contains_concat(x: Seq<ArgView>, y: Seq<ArgView>, e: ArgView)
    ensures
        (x + y).contains(e) <==> x.contains(e) || y.contains(e),
{
    let z = x + y;
    if z.contains(e) {
        let i = choose|i: int| 0 <= i < z.len() && z[i] == e;
        if i < x.len() {
            assert(x[i] == e);
        } else {
            assert(y[i - x.len()] == e);
        }
    }
    if x.contains(e) {
        let i = choose|i: int| 0 <= i < x.len() && x[i] == e;
        assert(z[i] == e);
    }
    if y.contains(e) {
        let i = choose|i: int| 0 <= i < y.len() && y[i] == e;
        assert(z[x.len() + i] == e);
    }
}

proof fn lemma_numbers_are_not_flags(v: i64, n: nat)
    ensures
        decimal(n).len() > 0 && 48 <= decimal(n)[0] as u32 <= 57,
        signed_decimal(v as int).len() > 1 ==> 48 <= signed_decimal(v as int)[1] as u32 <= 57,
        signed_decimal(v as int).len() > 0,
        signed_decimal(v as int)[0] == '-' ==> signed_decimal(v as int).len() > 1,
{
    lemma_decimal_digits(n);
    if v < 0 {
        lemma_decimal_digits((-v) as nat);
        assert(signed_decimal(v as int)[1] == decimal((-v) as nat)[0]);
    } else {
        lemma_decimal_digits(v as nat);
        let d = decimal(v as nat);
        if d.len() > 1 {
            assert(48 <= d[1] as u32 <= 57);
        }
        assert(48 <= d[0] as u32 <= 57);
    }
}

proof fn lemma_number_option_not_sketch(flag: Seq<char>, value: Option<i64>)
    requires
        flag.len() != 8,
    ensures
        !number_option(flag, value).contains(ArgView::Text("--sketch"@)),
{
    reveal_strlit("--sketch");
    let sk = "--sketch"@;
    if let Some(v) = value {
        lemma_numbers_are_not_flags(v, 0);
        let t = signed_decimal(v as int);
        if t == sk {
            assert(t[0] == '-');
            assert(t[1] == '-');
        }
        let o = number_option(flag, value);
        assert forall|i: int| 0 <= i < o.len() implies o[i] != ArgView::Text(sk) by {
            if i == 1 {
                assert(o[1] == ArgView::Text(t));
            }
        }
    } else {
        assert(number_option(flag, value) =~= Seq::<ArgView>::empty());
    }
}

/// A render is drawn in sketch style only when the call asks for it: the
/// `d2` command holds the argument `--sketch` exactly when `sketch` is set.
/// (A layout named `--sketch` would put that text on the command line as
/// the layout's value, so such a layout is left out.)
pub proof fn law_sketch_only_when_asked(args: D2RenderArgs, output_path: Seq<u8>, timeout: u64)
    requires
        !(args.layout matches Some(l) && l@ == "--sketch"@),
    ensures
        render_command_args(args, output_path, timeout).contains(ArgView::Text("--sketch"@))
            <==> args.sketch,
{
    reveal_strlit("--sketch");
    reveal_strlit("--stdout-format");
    reveal_strlit("--timeout");
    reveal_strlit("--theme");
    reveal_strlit("--dark-theme");
    reveal_strlit("--layout");
    reveal_strlit("--pad");
    let sk = ArgView::Text("--sketch"@);
    let base = seq![
        ArgView::InputFile,
        ArgView::Path(output_path),
        ArgView::Text("--stdout-format"@),
        ArgView::Text(format_extension(args.format)),
        ArgView::Text("--timeout"@),
        ArgView::Text(decimal(timeout as nat)),
    ];
    let th = number_option("--theme"@, args.theme);
    let dk = number_option("--dark-theme"@, args.dark_theme);
    let lay = match args.layout {
        Some(l) => seq![ArgView::Text("--layout"@), ArgView::Text(l@)],
        None => seq![],
    };
    let skp = if args.sketch {
        seq![ArgView::Text("--sketch"@)]
    } else {
        seq![]
    };
    let pd = number_option("--pad"@, args.pad);
    assert(render_command_args(args, output_path, timeout) == base + th + dk + lay + skp + pd);
    lemma_numbers_are_not_flags(0, timeout as nat);
    assert forall|i: int| 0 <= i < base.len() implies base[i] != sk by {
        if i == 2 {
            assert("--stdout-format"@.len() != "--sketch"@.len());
        } else if i == 3 {
            assert(format_extension(args.format).len() != "--sketch"@.len());
        } else if i == 4 {
            assert("--timeout"@.len() != "--sketch"@.len());
        } else if i == 5 {
            assert(decimal(timeout as nat)[0] != "--sketch"@[0]);
        }
    }
    assert(!base.contains(sk));
    lemma_number_option_not_sketch("--theme"@, args.theme);
    lemma_number_option_not_sketch("--dark-theme"@, args.dark_theme);
    lemma_number_option_not_sketch("--pad"@, args.pad);
    assert forall|i: int| 0 <= i < lay.len() implies lay[i] != sk by {
        if i == 0 {
            assert("--layout"@[2] != "--sketch"@[2]);
        }
    }
    assert(!lay.contains(sk));
    if args.sketch {
        assert(skp[0] == sk);
    } else {
        assert(skp =~= Seq::<ArgView>::empty());
    }
    lemma_contains_concat(base, th, sk);
    lemma_contains_concat(base + th, dk, sk);
    lemma_contains_concat(base + th + dk, lay, sk);
    lemma_contains_concat(base + th + dk + lay, skp, sk);
    lemma_contains_concat(base + th + dk + lay + skp, pd, sk);
}

/// Every time limit from 1 to 120 seconds is accepted and used as given; a
/// call without one gets 20 seconds; 0 and anything above 120 are refused.
pub proof fn law_timeout_range(t: u64)
    ensures
        1 <= t <= 120 ==> !timeout_refused(Some(t)) && requested_timeout(Some(t)) == t,
        t == 0 || t > 120 ==> timeout_refused(Some(t)),
        !timeout_refused(None) && requested_timeout(None) == 20,
{
}

/// The source rules in terms of the source itself: an empty source is
/// refused as empty; a non-empty one over the byte limit is refused for its
/// size; one within the limit is accepted when remote assets are allowed,
/// and when it holds no `:` at all.
pub proof fn law_source_rules(s: Seq<char>, allow_remote_assets: bool, max_source_bytes: usize)
    ensures
        s.len() == 0 ==> source_refusal(s, allow_remote_assets, max_source_bytes) == Some(
            "source is empty"@,
        ),
        s.len() > 0 && encode_utf8(s).len() > max_source_bytes ==> source_refusal(
            s,
            allow_remote_assets,
            max_source_bytes,
        ) == Some(
            "source is "@ + decimal(encode_utf8(s).len()) + " bytes, limit is "@ + decimal(
                max_source_bytes as nat,
            ) + " bytes"@,
        ),
        s.len() > 0 && encode_utf8(s).len() <= max_source_bytes && allow_remote_assets
            ==> source_refusal(s, allow_remote_assets, max_source_bytes) is None,
        s.len() > 0 && encode_utf8(s).len() <= max_source_bytes && (forall|i: int|
            0 <= i < s.len() ==> s[i] != ':') ==> source_refusal(
            s,
            allow_remote_assets,
            max_source_bytes,
        ) is None,
{
    if forall|i: int| 0 <= i < s.len() ==> s[i] != ':' {
        law_no_colon_no_remote_reference(s);
    }
}

/// The start of every render command line: the source file, the output
/// file, `--stdout-format` and the format's extension, then `--timeout`
/// and the time limit in decimal.
pub proof fn law_render_command_start(args: D2RenderArgs, output_path: Seq<u8>, timeout: u64)
    ensures
        ({
            let c = render_command_args(args, output_path, timeout);
            &&& c.len() >= 6
            &&& c[0] == ArgView::InputFile
            &&& c[1] == ArgView::Path(output_path)
            &&& c[2] == ArgView::Text("--stdout-format"@)
            &&& c[3] == ArgView::Text(
                match args.format {
                    crate::model::D2OutputFormat::Svg => seq!['s', 'v', 'g'],
                    crate::model::D2OutputFormat::Png => seq!['p', 'n', 'g'],
                },
            )
            &&& c[4] == ArgView::Text("--timeout"@)
            &&& c[5] == ArgView::Text(decimal(timeout as nat))
        }),
{
}

proof fn lemma_number_option_flags(flag: Seq<char>, value: Option<i64>, f: Seq<char>)
    requires
        f.len() >= 2,
        f[0] == '-',
        f[1] == '-',
    ensures
        number_option(flag, value).contains(ArgView::Text(f)) ==> f == flag && value is Some,
{
    let o = number_option(flag, value);
    if let Some(v) = value {
        lemma_numbers_are_not_flags(v, 0);
        let t = signed_decimal(v as int);
        if t == f {
            assert(t[0] == '-');
            assert(t[1] == f[1]);
        }
        if o.contains(ArgView::Text(f)) {
            let i = choose|i: int| 0 <= i < o.len() && o[i] == ArgView::Text(f);
            if i == 1 {
                assert(o[1] == ArgView::Text(t));
            }
        }
    } else {
        assert(o =~= Seq::<ArgView>::empty());
    }
}

/// Where a text starting `--` can come from in a render command: only from
/// the theme, dark theme or padding option, when the call sets it, unless
/// it is one of the fixed flags or the layout's name.
proof fn lemma_flag_origin(args: D2RenderArgs, output_path: Seq<u8>, timeout: u64, f: Seq<char>)
    requires
        f.len() >= 2,
        f[0] == '-',
        f[1] == '-',
        f != "--stdout-format"@,
        f != "--timeout"@,
        f != "--layout"@,
        f != "--sketch"@,
        !(args.layout matches Some(l) && l@ == f),
    ensures
        render_command_args(args, output_path, timeout).contains(ArgView::Text(f)) ==> (f
            == "--theme"@ && args.theme is Some) || (f == "--dark-theme"@ && args.dark_theme is Some)
            || (f == "--pad"@ && args.pad is Some),
{
    let e = ArgView::Text(f);
    let base = seq![
        ArgView::InputFile,
        ArgView::Path(output_path),
        ArgView::Text("--stdout-format"@),
        ArgView::Text(format_extension(args.format)),
        ArgView::Text("--timeout"@),
        ArgView::Text(decimal(timeout as nat)),
    ];
    let th = number_option("--theme"@, args.theme);
    let dk = number_option("--dark-theme"@, args.dark_theme);
    let lay = match args.layout {
        Some(l) => seq![ArgView::Text("--layout"@), ArgView::Text(l@)],
        None => seq![],
    };
    let skp = if args.sketch {
        seq![ArgView::Text("--sketch"@)]
    } else {
        seq![]
    };
    let pd = number_option("--pad"@, args.pad);
    assert(render_command_args(args, output_path, timeout) == base + th + dk + lay + skp + pd);
    lemma_numbers_are_not_flags(0, timeout as nat);
    assert forall|i: int| 0 <= i < base.len() implies base[i] != e by {
        if i == 3 {
            assert(format_extension(args.format)[0] != f[0]);
        } else if i == 5 {
            assert(decimal(timeout as nat)[0] != f[0]);
        }
    }
    assert forall|i: int| 0 <= i < lay.len() implies lay[i] != e by {}
    assert forall|i: int| 0 <= i < skp.len() implies skp[i] != e by {}
    lemma_number_option_flags("--theme"@, args.theme, f);
    lemma_number_option_flags("--dark-theme"@, args.dark_theme, f);
    lemma_number_option_flags("--pad"@, args.pad, f);
    lemma_contains_concat(base, th, e);
    lemma_contains_concat(base + th, dk, e);
    lemma_contains_concat(base + th + dk, lay, e);
    lemma_contains_concat(base + th + dk + lay, skp, e);
    lemma_contains_concat(base + th + dk + lay + skp, pd, e);
}

/// Each numeric option reaches `d2` with its own value: where the call sets
/// a theme, a dark theme or a padding, the command holds its flag directly
/// followed by that value in decimal; where it sets none, the flag is
/// absent.
pub proof fn law_render_number_options(args: D2RenderArgs, output_path: Seq<u8>, timeout: u64)
    requires
        !(args.layout matches Some(l) && (l@ == "--theme"@ || l@ == "--dark-theme"@ || l@
            == "--pad"@)),
    ensures
        ({
            let c = render_command_args(args, output_path, timeout);
            &&& args.theme matches Some(v) ==> exists|k: int|
                0 <= k && k + 1 < c.len() && #[trigger] c[k] == ArgView::Text("--theme"@) && c[k + 1]
                    == ArgView::Text(signed_decimal(v as int))
            &&& args.dark_theme matches Some(v) ==> exists|k: int|
                0 <= k && k + 1 < c.len() && #[trigger] c[k] == ArgView::Text("--dark-theme"@) && c[k + 1]
                    == ArgView::Text(signed_decimal(v as int))
            &&& args.pad matches Some(v) ==> exists|k: int|
                0 <= k && k + 1 < c.len() && #[trigger] c[k] == ArgView::Text("--pad"@) && c[k + 1]
                    == ArgView::Text(signed_decimal(v as int))
            &&& args.theme is None ==> !c.contains(ArgView::Text("--theme"@))
            &&& args.dark_theme is None ==> !c.contains(ArgView::Text("--dark-theme"@))
            &&& args.pad is None ==> !c.contains(ArgView::Text("--pad"@))
        }),
{
    reveal_strlit("--theme");
    reveal_strlit("--dark-theme");
    reveal_strlit("--pad");
    reveal_strlit("--stdout-format");
    reveal_strlit("--timeout");
    reveal_strlit("--layout");
    reveal_strlit("--sketch");
    let c = render_command_args(args, output_path, timeout);
    let th = number_option("--theme"@, args.theme);
    let dk = number_option("--dark-theme"@, args.dark_theme);
    let lay = match args.layout {
        Some(l) => seq![ArgView::Text("--layout"@), ArgView::Text(l@)],
        None => seq![],
    };
    let skp = if args.sketch {
        seq![ArgView::Text("--sketch"@)]
    } else {
        seq![]
    };
    let pd = number_option("--pad"@, args.pad);
    let base = seq![
        ArgView::InputFile,
        ArgView::Path(output_path),
        ArgView::Text("--stdout-format"@),
        ArgView::Text(format_extension(args.format)),
        ArgView::Text("--timeout"@),
        ArgView::Text(decimal(timeout as nat)),
    ];
    assert(c == base + th + dk + lay + skp + pd);
    if let Some(v) = args.theme {
        assert(c[6] == ArgView::Text("--theme"@));
        assert(c[7] == ArgView::Text(signed_decimal(v as int)));
    }
    if let Some(v) = args.dark_theme {
        let k: int = (6 + th.len()) as int;
        assert(c[k] == ArgView::Text("--dark-theme"@));
        assert(c[k + 1] == ArgView::Text(signed_decimal(v as int)));
    }
    if let Some(v) = args.pad {
        let k: int = (6 + th.len() + dk.len() + lay.len() + skp.len()) as int;
        assert(c[k] == ArgView::Text("--pad"@));
        assert(c[k + 1] == ArgView::Text(signed_decimal(v as int)));
    }
    assert("--theme"@.len() == 7 && "--dark-theme"@.len() == 12 && "--pad"@.len() == 5);
    assert("--stdout-format"@.len() == 15 && "--timeout"@.len() == 9);
    assert("--layout"@.len() == 8 && "--sketch"@.len() == 8);
    lemma_flag_origin(args, output_path, timeout, "--theme"@);
    lemma_flag_origin(args, output_path, timeout, "--dark-theme"@);
    lemma_flag_origin(args, output_path, timeout, "--pad"@);
}

/// A size setting that is not a number is ignored: text that is empty, is
/// only `+`, or holds any character other than a digit (past one leading
/// `+`) leaves the default limit.
pub proof fn law_non_numeric_setting_ignored(v: Seq<char>, default_value: usize, i: int)
    requires
        v.len() == 0 || v =~= seq!['+'] || (0 <= i < v.len() && !(48 <= v[i] as u32 <= 57) && !(i
            == 0 && v[i] == '+')),
    ensures
        setting_limit(Some(v), default_value) == default_value,
{
    if v.len() > 0 && !(v =~= seq!['+']) {
        let d = crate::config::unsigned_digits(v);
        if v[0] == '+' {
            assert(d[i - 1] == v[i]);
        } else {
            assert(d[i] == v[i]);
        }
    }
}

/// The output path a call names is used as written, as its UTF-8 bytes.
pub proof fn law_requested_path_used(p: Seq<char>, format: crate::model::D2OutputFormat, sha: Seq<char>)
    ensures
        requested_output_path(Some(p), format, sha) == encode_utf8(p),
{
}

/// Joining puts the relative path after the working directory, with one
/// `/` between them unless the directory is empty or already ends in `/`.
pub proof fn law_join_appends(workdir: Seq<u8>, rel: Seq<u8>)
    requires
        rel.len() > 0,
        rel[0] != 47u8,
    ensures
        workdir.len() > 0 && workdir.last() != 47u8 ==> join_path(workdir, rel) == workdir + seq![
            47u8,
        ] + rel,
        workdir.len() > 0 && workdir.last() == 47u8 ==> join_path(workdir, rel) == workdir + rel,
        workdir.len() == 0 ==> join_path(workdir, rel) == rel,
{
    assert(workdir.len() == 0 ==> workdir + rel =~= rel);
}

} // verus!
