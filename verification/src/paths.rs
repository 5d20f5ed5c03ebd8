use vstd::prelude::*;
use vstd::utf8::{decode_utf8, encode_utf8, is_char_boundary, valid_utf8};

use crate::error::D2McpError;
use crate::model::{format_extension, D2OutputFormat};
use crate::text::{lossy_text, utf8_lossy};

verus! {

// Paths are modelled as they are on Unix: any sequence of bytes, with `/`
// as the only separator. A path given as text is its UTF-8 bytes.

/// The byte `/`.
pub const SLASH: u8 = 47;

/// The byte `.`.
pub const DOT: u8 = 46;

/// The path starts at the root directory.
pub open spec fn has_root(p: Seq<u8>) -> bool {
    p.len() > 0 && p[0] == SLASH
}

/// A `..` component starts at index `i`: two dots bounded by separators or
/// the ends of the path.
pub open spec fn parent_component_at(p: Seq<u8>, i: int) -> bool {
    &&& 0 <= i
    &&& i + 2 <= p.len()
    &&& p[i] == DOT
    &&& p[i + 1] == DOT
    &&& (i == 0 || p[i - 1] == SLASH)
    &&& (i + 2 == p.len() || p[i + 2] == SLASH)
}

/// Some component of the path is `..`.
pub open spec fn has_parent_component(p: Seq<u8>) -> bool {
    exists|i: int| parent_component_at(p, i)
}

/// The message for an output path that could leave the working directory.
pub open spec fn escape_message() -> Seq<char> {
    "output_path must be relative and stay inside D2_MCP_WORKDIR"@
}

/// Why a requested output path is refused, if it is: it is empty, or it is
/// absolute or holds a `..` component.
pub open spec fn relative_path_refusal(p: Seq<u8>) -> Option<Seq<char>> {
    if p.len() == 0 {
        Some("output_path is empty"@)
    } else if has_root(p) || has_parent_component(p) {
        Some(escape_message())
    } else {
        None
    }
}

/// A path that names something inside the directory it is joined to.
pub open spec fn stays_inside(p: Seq<u8>) -> bool {
    relative_path_refusal(p) is None
}

/// Checks that an output path is relative and never climbs out of the
/// directory it is joined to.
pub fn validate_relative_path(path: &[u8]) -> (r: Result<(), D2McpError>)
    ensures
        match relative_path_refusal(path@) {
            Some(m) => r matches Err(D2McpError::InvalidInput(e)) && e@ == m,
            None => r is Ok,
        },
{
    let n = path.len();
    if n == 0 {
        return Err(D2McpError::InvalidInput(String::from_str("output_path is empty")));
    }
    if path[0] == SLASH {
        return Err(D2McpError::InvalidInput(
            String::from_str("output_path must be relative and stay inside D2_MCP_WORKDIR"),
        ));
    }
    let mut i: usize = 0;
    while i < n
        invariant
            n == path@.len(),
            0 <= i <= n,
            forall|j: int| 0 <= j < i ==> !parent_component_at(path@, j),
        decreases n - i,
    {
        if i + 1 < n && path[i] == DOT && path[i + 1] == DOT && (i == 0 || path[i - 1] == SLASH)
            && (i + 2 == n || path[i + 2] == SLASH) {
            assert(parent_component_at(path@, i as int));
            return Err(D2McpError::InvalidInput(
                String::from_str("output_path must be relative and stay inside D2_MCP_WORKDIR"),
            ));
        }
        i = i + 1;
    }
    assert forall|j: int| !parent_component_at(path@, j) by {
        if 0 <= j < n {
        }
    }
    Ok(())
}

/// `base` joined with `rel` as `PathBuf::join` does on Unix: an absolute
/// `rel` replaces `base`; otherwise `rel` follows `base`, with a `/` between
/// them unless `base` is empty or already ends in `/`.
pub open spec fn join_path(base: Seq<u8>, rel: Seq<u8>) -> Seq<u8> {
    if has_root(rel) {
        rel
    } else if base.len() > 0 && base.last() != SLASH {
        base + seq![SLASH] + rel
    } else {
        base + rel
    }
}

/// Joins two paths as `PathBuf::join` does on Unix.
pub fn join_path_bytes(base: &[u8], rel: &[u8]) -> (r: Vec<u8>)
    ensures
        r@ == join_path(base@, rel@),
{
    if rel.len() > 0 && rel[0] == SLASH {
        return vstd::slice::slice_to_vec(rel);
    }
    let mut r = vstd::slice::slice_to_vec(base);
    if base.len() > 0 && base[base.len() - 1] != SLASH {
        r.push(SLASH);
    }
    let ghost front = r@;
    r.extend_from_slice(rel);
    assert(r@ =~= front + rel@);
    r
}

/// The directory renders go to when a call names no output path:
/// `.d2-mcp-output`.
pub open spec fn default_output_dir() -> Seq<u8> {
    seq![46u8, 100, 50, 45, 109, 99, 112, 45, 111, 117, 116, 112, 117, 116]
}

/// Where a render goes when the call names no output path: a file named by
/// the first 16 bytes of the source digest and the format's extension, under
/// `.d2-mcp-output`.
pub open spec fn default_output_path(sha: Seq<char>, format: D2OutputFormat) -> Seq<u8> {
    join_path(
        default_output_dir(),
        encode_utf8(sha).subrange(0, 16) + seq![DOT] + encode_utf8(format_extension(format)),
    )
}

/// The path a render call asks for, relative to the working directory.
pub open spec fn requested_output_path(
    output_path: Option<Seq<char>>,
    format: D2OutputFormat,
    sha: Seq<char>,
) -> Seq<u8> {
    match output_path {
        Some(p) => encode_utf8(p),
        None => default_output_path(sha, format),
    }
}

/// The view of an optional string slice.
pub open spec fn opt_str_view(o: Option<&str>) -> Option<Seq<char>> {
    match o {
        Some(s) => Some(s@),
        None => None,
    }
}

/// The file a render writes: the requested path (by default one named after
/// the source digest under `.d2-mcp-output`) joined to the working
/// directory, once the path is known to stay inside it.
pub fn resolve_output_path(
    workdir: &[u8],
    output_path: Option<&str>,
    format: D2OutputFormat,
    source_sha256: &str,
) -> (r: Result<Vec<u8>, D2McpError>)
    requires
        output_path is None ==> is_char_boundary(encode_utf8(source_sha256@), 16),
    ensures
        ({
            let rel = requested_output_path(opt_str_view(output_path), format, source_sha256@);
            match relative_path_refusal(rel) {
                Some(m) => r matches Err(D2McpError::InvalidInput(e)) && e@ == m,
                None => r matches Ok(p) && p@ == join_path(workdir@, rel),
            }
        }),
{
    let relative: Vec<u8> = match output_path {
        Some(p) => vstd::slice::slice_to_vec(p.as_bytes()),
        None => {
            let sha = source_sha256.as_bytes();
            proof {
                vstd::utf8::encode_utf8_valid_utf8(source_sha256@);
            }
            let mut name = vstd::slice::slice_to_vec(vstd::slice::slice_subrange(sha, 0, 16));
            name.push(DOT);
            let ghost front = name@;
            name.extend_from_slice(format.extension().as_bytes());
            assert(name@ =~= front + encode_utf8(format_extension(format)));
            assert(name@ =~= encode_utf8(source_sha256@).subrange(0, 16) + seq![DOT]
                + encode_utf8(format_extension(format)));
            let dir = ".d2-mcp-output".as_bytes();
            proof {
                reveal_strlit(".d2-mcp-output");
                assert(dir@ =~= default_output_dir()) by {
                    crate::text::lemma_encode_ascii(".d2-mcp-output"@);
                }
            }
            join_path_bytes(dir, name.as_slice())
        },
    };
    assert(relative@ == requested_output_path(opt_str_view(output_path), format, source_sha256@));
    match validate_relative_path(relative.as_slice()) {
        Ok(()) => Ok(join_path_bytes(workdir, relative.as_slice())),
        Err(e) => Err(e),
    }
}

/// `p` without the leading separators and `.` components that
/// `Path::components` skips at the front of a path's body.
pub open spec fn trim_front(p: Seq<u8>) -> Seq<u8>
    decreases p.len(),
{
    if p.len() > 0 && p[0] == SLASH {
        trim_front(p.drop_first())
    } else if p.len() == 1 && p[0] == DOT {
        seq![]
    } else if p.len() >= 2 && p[0] == DOT && p[1] == SLASH {
        trim_front(p.skip(2))
    } else {
        p
    }
}

/// `p` without the trailing separators and `.` components that
/// `Path::components` skips at the back, never cutting into the first `b`
/// bytes.
pub open spec fn trim_back(p: Seq<u8>, b: nat) -> Seq<u8>
    decreases p.len(),
{
    if p.len() <= b {
        p
    } else if p.last() == SLASH {
        trim_back(p.drop_last(), b)
    } else if p.last() == DOT && p.len() - 1 == b {
        p.drop_last()
    } else if p.last() == DOT && p[p.len() - 2] == SLASH {
        trim_back(p.take(p.len() - 2), b)
    } else {
        p
    }
}

/// The length of a path's root or leading `.` component, which trimming at
/// the back leaves alone.
pub open spec fn body_start(p: Seq<u8>) -> nat {
    if has_root(p) {
        1
    } else if p.len() > 0 && p[0] == DOT && (p.len() == 1 || p[1] == SLASH) {
        1
    } else {
        0
    }
}

/// `out` begins with the directory `dir`, as whole components.
pub open spec fn starts_with_dir(out: Seq<u8>, dir: Seq<u8>) -> bool {
    &&& dir.len() <= out.len()
    &&& out.take(dir.len() as int) == dir
    &&& (out.len() == dir.len() || dir.last() == SLASH || out[dir.len() as int] == SLASH)
}

/// The bytes of a written file's path as shown to the caller: its path
/// relative to the working directory, as `Path::strip_prefix` leaves it, or
/// the whole path where it does not lie under the working directory.
pub open spec fn displayed_path(workdir: Seq<u8>, out: Seq<u8>) -> Seq<u8> {
    if workdir.len() == 0 {
        trim_back(out, body_start(out))
    } else if starts_with_dir(out, workdir) {
        trim_back(trim_front(out.skip(workdir.len() as int)), 0)
    } else {
        out
    }
}

fn trim_front_index(o: &[u8], lo: usize) -> (i: usize)
    requires
        lo <= o@.len(),
    ensures
        lo <= i <= o@.len(),
        o@.subrange(i as int, o@.len() as int) == trim_front(o@.subrange(lo as int, o@.len() as int)),
{
    let n = o.len();
    let mut i = lo;
    while i < n
        invariant
            n == o@.len(),
            lo <= i <= n,
            trim_front(o@.subrange(i as int, n as int)) == trim_front(
                o@.subrange(lo as int, n as int),
            ),
        decreases n - i,
    {
        let ghost p = o@.subrange(i as int, n as int);
        if o[i] == SLASH {
            assert(p.drop_first() =~= o@.subrange(i + 1, n as int));
            i = i + 1;
        } else if i + 1 == n && o[i] == DOT {
            assert(trim_front(p) =~= o@.subrange(n as int, n as int));
            i = i + 1;
        } else if i + 1 < n && o[i] == DOT && o[i + 1] == SLASH {
            assert(p.skip(2) =~= o@.subrange(i + 2, n as int));
            i = i + 2;
        } else {
            return i;
        }
    }
    i
}

fn trim_back_index(o: &[u8], lo: usize, hi: usize, b: usize) -> (j: usize)
    requires
        lo <= hi <= o@.len(),
    ensures
        lo <= j <= hi,
        o@.subrange(lo as int, j as int) == trim_back(o@.subrange(lo as int, hi as int), b as nat),
{
    let mut j = hi;
    while j > lo
        invariant
            lo <= j <= hi <= o@.len(),
            trim_back(o@.subrange(lo as int, j as int), b as nat) == trim_back(
                o@.subrange(lo as int, hi as int),
                b as nat,
            ),
        decreases j,
    {
        let ghost p = o@.subrange(lo as int, j as int);
        if j - lo <= b {
            return j;
        }
        if o[j - 1] == SLASH {
            assert(p.drop_last() =~= o@.subrange(lo as int, j - 1));
            j = j - 1;
        } else if o[j - 1] == DOT && j - 1 - lo == b {
            assert(trim_back(p, b as nat) =~= o@.subrange(lo as int, j - 1));
            return j - 1;
        } else if o[j - 1] == DOT && o[j - 2] == SLASH {
            assert(p.take(p.len() - 2) =~= o@.subrange(lo as int, j - 2));
            j = j - 2;
        } else {
            return j;
        }
    }
    j
}

fn starts_with_dir_exec(o: &[u8], w: &[u8]) -> (r: bool)
    requires
        w@.len() > 0,
    ensures
        r == starts_with_dir(o@, w@),
{
    let wn = w.len();
    let on = o.len();
    if wn > on {
        return false;
    }
    let mut k: usize = 0;
    while k < wn
        invariant
            wn == w@.len(),
            on == o@.len(),
            wn <= on,
            k <= wn,
            forall|m: int| 0 <= m < k ==> o@[m] == w@[m],
        decreases wn - k,
    {
        if o[k] != w[k] {
            assert(o@.take(wn as int)[k as int] != w@[k as int]);
            return false;
        }
        k = k + 1;
    }
    assert(o@.take(wn as int) =~= w@);
    on == wn || w[wn - 1] == SLASH || o[wn] == SLASH
}

/// The written file's path as shown to the caller, as `Path::display`
/// shows it: relative to the working directory when it lies under it, else
/// the whole path, with any bytes that are not UTF-8 replaced.
pub fn relative_display(workdir: &[u8], output_path: &[u8]) -> (r: String)
    ensures
        r@ == utf8_lossy(displayed_path(workdir@, output_path@)),
        valid_utf8(displayed_path(workdir@, output_path@)) ==> r@ == decode_utf8(
            displayed_path(workdir@, output_path@),
        ),
{
    let o = output_path;
    let n = o.len();
    if workdir.len() == 0 {
        let b: usize = if n > 0 && o[0] == SLASH {
            1
        } else if n > 0 && o[0] == DOT && (n == 1 || o[1] == SLASH) {
            1
        } else {
            0
        };
        let j = trim_back_index(o, 0, n, b);
        assert(o@.subrange(0, n as int) =~= o@);
        return lossy_text(vstd::slice::slice_subrange(o, 0, j));
    }
    if starts_with_dir_exec(o, workdir) {
        let i = trim_front_index(o, workdir.len());
        assert(o@.subrange(workdir.len() as int, n as int) =~= o@.skip(workdir.len() as int));
        let j = trim_back_index(o, i, n, 0);
        lossy_text(vstd::slice::slice_subrange(o, i, j))
    } else {
        lossy_text(o)
    }
}

/// The separator that joining puts after `base`: `/`, unless `base` is
/// empty or already ends in one.
pub open spec fn join_separator(base: Seq<u8>) -> Seq<u8> {
    if base.len() > 0 && base.last() != SLASH {
        seq![SLASH]
    } else {
        seq![]
    }
}

/// Output confinement: a path that passes the output path check, joined to
/// the working directory, is the working directory, a separator where one
/// is needed, and then that path; and every `..` component of the result
/// lies within the working directory's own name, so the relative part never
/// climbs out of it.
pub proof fn law_resolved_path_stays_in_workdir(workdir: Seq<u8>, rel: Seq<u8>)
    requires
        stays_inside(rel),
    ensures
        join_path(workdir, rel) == workdir + join_separator(workdir) + rel,
        workdir.len() > 0 ==> starts_with_dir(join_path(workdir, rel), workdir),
        forall|i: int|
            parent_component_at(join_path(workdir, rel), i) ==> i + 2 <= workdir.len(),
{
    let p = join_path(workdir, rel);
    let sep = join_separator(workdir);
    let off = workdir.len() + sep.len();
    assert(p =~= workdir + sep + rel);
    assert(p.take(workdir.len() as int) =~= workdir);
    if workdir.len() > 0 && workdir.last() != SLASH {
        assert(p[workdir.len() as int] == SLASH);
    }
    assert forall|i: int| parent_component_at(p, i) implies i + 2 <= workdir.len() by {
        if i + 2 > workdir.len() {
            if i >= off {
                assert(parent_component_at(rel, i - off));
            } else if i == workdir.len() {
                assert(p[i] == SLASH);
            } else if i + 1 == workdir.len() {
                if sep.len() == 1 {
                    assert(p[i + 1] == SLASH);
                } else {
                    assert(p[i] == workdir.last());
                }
            }
        }
    }
}

/// A path whose first byte is not `/` or `.` and whose last is neither
/// `/` nor `.`: one that displays exactly as written.
pub open spec fn plain_relative_path(p: Seq<u8>) -> bool {
    &&& p.len() > 0
    &&& p[0] != SLASH
    &&& p[0] != DOT
    &&& p.last() != SLASH
    &&& p.last() != DOT
}

/// Displaying a written file gives back the path the caller asked for:
/// under a non-empty working directory, the requested path without leading
/// `/` and `./` and without trailing `/` and `/.`; under an empty one, the
/// requested path without its trailing separators and `.` components; and
/// for a plain path, the path exactly.
pub proof fn law_display_returns_requested_path(workdir: Seq<u8>, rel: Seq<u8>)
    requires
        stays_inside(rel),
    ensures
        workdir.len() > 0 ==> displayed_path(workdir, join_path(workdir, rel)) == trim_back(
            trim_front(rel),
            0,
        ),
        workdir.len() == 0 ==> displayed_path(workdir, join_path(workdir, rel)) == trim_back(
            rel,
            body_start(rel),
        ),
        plain_relative_path(rel) ==> displayed_path(workdir, join_path(workdir, rel)) == rel,
{
    let p = join_path(workdir, rel);
    law_resolved_path_stays_in_workdir(workdir, rel);
    if workdir.len() > 0 {
        if workdir.last() != SLASH {
            assert(p.skip(workdir.len() as int) =~= seq![SLASH] + rel);
            assert((seq![SLASH] + rel).drop_first() =~= rel);
        } else {
            assert(p.skip(workdir.len() as int) =~= rel);
        }
        assert(trim_front(p.skip(workdir.len() as int)) == trim_front(rel));
    } else {
        assert(p =~= rel);
    }
    if plain_relative_path(rel) {
        assert(trim_front(rel) == rel);
        assert(trim_back(rel, 0) == rel);
        assert(body_start(rel) == 0);
    }
}

} // verus!
