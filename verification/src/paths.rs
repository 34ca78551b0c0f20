//! Verified path and file-name computations: slash-path normalization,
//! joining, the download temp-file name, helper log-file names, and the
//! archive-format dispatch used by the updater.

use vstd::prelude::*;
use vstd::string::*;
use crate::text::{push_char, dec_digits, u64_to_string};

verus! {

/// Whether a slash-separated path is absolute.
pub open spec fn is_abs(s: Seq<char>) -> bool {
    s.len() > 0 && s[0] == '/'
}

/// The segments of a path split on `'/'`; always at least one segment,
/// with empty segments standing for repeated or edge separators.
pub open spec fn split_slash(s: Seq<char>) -> Seq<Seq<char>>
    decreases s.len(),
{
    if s.len() == 0 {
        seq![Seq::<char>::empty()]
    } else {
        let rest = split_slash(s.drop_last());
        if s.last() == '/' {
            rest.push(Seq::<char>::empty())
        } else {
            rest.update(rest.len() - 1, rest.last().push(s.last()))
        }
    }
}

pub proof fn lemma_split_slash_nonempty(s: Seq<char>)
    ensures
        split_slash(s).len() >= 1,
    decreases s.len(),
{
    if s.len() > 0 {
        lemma_split_slash_nonempty(s.drop_last());
    }
}

/// The current-directory segment.
pub open spec fn dot_seg() -> Seq<char> {
    seq!['.']
}

/// The parent-directory segment.
pub open spec fn dotdot_seg() -> Seq<char> {
    seq!['.', '.']
}

/// One step of path reduction: empty and `.` segments are dropped, `..`
/// pops a trailing normal name and otherwise stays, and any other name is
/// kept.
pub open spec fn reduce_step(acc: Seq<Seq<char>>, seg: Seq<char>) -> Seq<Seq<char>> {
    if seg.len() == 0 || seg == dot_seg() {
        acc
    } else if seg == dotdot_seg() {
        if acc.len() > 0 && acc.last() != dotdot_seg() {
            acc.drop_last()
        } else {
            acc.push(seg)
        }
    } else {
        acc.push(seg)
    }
}

/// The reduced segment list of a path.
pub open spec fn reduce(segs: Seq<Seq<char>>) -> Seq<Seq<char>>
    decreases segs.len(),
{
    if segs.len() == 0 {
        Seq::<Seq<char>>::empty()
    } else {
        reduce_step(reduce(segs.drop_last()), segs.last())
    }
}

/// Segments joined with `'/'`.
pub open spec fn join_slash(parts: Seq<Seq<char>>) -> Seq<char>
    decreases parts.len(),
{
    if parts.len() == 0 {
        Seq::<char>::empty()
    } else if parts.len() == 1 {
        parts[0]
    } else {
        join_slash(parts.drop_last()) + seq!['/'] + parts.last()
    }
}

/// A reduced segment list rendered back into a path.
pub open spec fn render(abs: bool, parts: Seq<Seq<char>>) -> Seq<char> {
    if abs {
        seq!['/'] + join_slash(parts)
    } else {
        join_slash(parts)
    }
}

/// The normal form of a path: split on `'/'`, reduced, re-rendered.
pub open spec fn normalized_path(s: Seq<char>) -> Seq<char> {
    render(is_abs(s), reduce(split_slash(s)))
}

/// The character views of a vector of strings.
pub open spec fn views(v: Seq<String>) -> Seq<Seq<char>> {
    Seq::new(v.len(), |j: int| v[j]@)
}

fn is_dotdot(s: &String) -> (r: bool)
    ensures
        r == (s@ == dotdot_seg()),
{
    let n = s.as_str().unicode_len();
    if n == 2 && s.as_str().get_char(0) == '.' && s.as_str().get_char(1) == '.' {
        proof {
            assert(s@ =~= dotdot_seg());
        }
        true
    } else {
        proof {
            if s@ == dotdot_seg() {
                assert(s@.len() == 2 && s@[0] == '.' && s@[1] == '.');
            }
        }
        false
    }
}

fn reduce_push(parts: &mut Vec<String>, seg: String)
    ensures
        views(final(parts)@) == reduce_step(views(old(parts)@), seg@),
{
    let ghost pre = views(parts@);
    let n = seg.as_str().unicode_len();
    if n == 0 || (n == 1 && seg.as_str().get_char(0) == '.') {
        proof {
            if n == 1 {
                assert(seg@ =~= dot_seg());
            }
        }
    } else if n == 2 && seg.as_str().get_char(0) == '.' && seg.as_str().get_char(1) == '.' {
        proof {
            assert(seg@ =~= dotdot_seg());
            assert(seg@.len() != 0 && seg@ != dot_seg());
        }
        let len = parts.len();
        if len > 0 && !is_dotdot(&parts[len - 1]) {
            proof {
                assert(pre.last() == parts@[len - 1]@);
            }
            parts.pop();
            proof {
                assert(views(parts@) =~= pre.drop_last());
            }
        } else {
            proof {
                if len > 0 {
                    assert(pre.last() == parts@[len - 1]@);
                }
            }
            parts.push(seg);
            proof {
                assert(views(parts@) =~= pre.push(dotdot_seg()));
            }
        }
    } else {
        proof {
            assert(seg@.len() != 0);
            if seg@ == dot_seg() {
                assert(seg@.len() == 1 && seg@[0] == '.');
            }
            if seg@ == dotdot_seg() {
                assert(seg@.len() == 2 && seg@[0] == '.' && seg@[1] == '.');
            }
        }
        parts.push(seg);
        proof {
            assert(views(parts@) =~= pre.push(seg@));
        }
    }
}

fn render_parts(abs: bool, parts: &Vec<String>) -> (r: String)
    ensures
        r@ == render(abs, views(parts@)),
{
    let mut out = String::new();
    if abs {
        push_char(&mut out, '/');
    }
    let ghost all = views(parts@);
    let mut j: usize = 0;
    while j < parts.len()
        invariant
            0 <= j <= parts@.len(),
            all == views(parts@),
            out@ == render(abs, all.take(j as int)),
        decreases parts@.len() - j,
    {
        if j > 0 {
            push_char(&mut out, '/');
        }
        out.append(parts[j].as_str());
        proof {
            assert(all.take(j + 1).drop_last() =~= all.take(j as int));
            assert(all.take(j + 1).last() == parts@[j as int]@);
            if j == 0 {
                assert(join_slash(all.take(1)) == all.take(1)[0]);
            }
        }
        j = j + 1;
    }
    proof {
        assert(all.take(parts@.len() as int) =~= all);
    }
    out
}

/// Normalizes a slash-separated path without touching the file system:
/// repeated separators and `.` segments vanish, and `..` removes a
/// preceding normal name where one exists.
pub fn normalize_path(path: &str) -> (r: String)
    ensures
        r@ == normalized_path(path@),
{
    let n = path.unicode_len();
    let abs = n > 0 && path.get_char(0) == '/';
    let mut parts: Vec<String> = Vec::new();
    let mut cur = String::new();
    let mut i: usize = 0;
    while i < n
        invariant
            0 <= i <= n,
            n == path@.len(),
            ({
                let segs = split_slash(path@.take(i as int));
                &&& segs.len() >= 1
                &&& views(parts@) == reduce(segs.drop_last())
                &&& cur@ == segs.last()
            }),
        decreases n - i,
    {
        let ghost segs = split_slash(path@.take(i as int));
        let c = path.get_char(i);
        proof {
            assert(path@.take(i + 1).drop_last() =~= path@.take(i as int));
            assert(path@.take(i + 1).last() == path@[i as int]);
            lemma_split_slash_nonempty(path@.take(i + 1));
        }
        if c == '/' {
            let ghost segs2 = split_slash(path@.take(i + 1));
            proof {
                assert(segs2 == segs.push(Seq::<char>::empty()));
                assert(segs2.drop_last() =~= segs);
                assert(reduce(segs) == reduce_step(reduce(segs.drop_last()), segs.last()));
            }
            let done = cur;
            cur = String::new();
            reduce_push(&mut parts, done);
        } else {
            let ghost segs2 = split_slash(path@.take(i + 1));
            proof {
                assert(segs2 == segs.update(segs.len() - 1, segs.last().push(path@[i as int])));
                assert(segs2.drop_last() =~= segs.drop_last());
                assert(segs2.last() == segs.last().push(path@[i as int]));
            }
            push_char(&mut cur, c);
        }
        i = i + 1;
    }
    proof {
        assert(path@.take(n as int) =~= path@);
        let segs = split_slash(path@);
        assert(reduce(segs) == reduce_step(reduce(segs.drop_last()), segs.last()));
    }
    reduce_push(&mut parts, cur);
    render_parts(abs, &parts)
}

/// A base path joined with a further path, as a path API would join them:
/// an absolute second path replaces the first.
pub open spec fn joined_path(base: Seq<char>, rel: Seq<char>) -> Seq<char> {
    if is_abs(rel) {
        rel
    } else if base.len() == 0 {
        rel
    } else if base.last() == '/' {
        base + rel
    } else {
        base + seq!['/'] + rel
    }
}

/// Joins two slash-separated paths.
pub fn join_path(base: &str, rel: &str) -> (r: String)
    ensures
        r@ == joined_path(base@, rel@),
{
    let nr = rel.unicode_len();
    let nb = base.unicode_len();
    if nr > 0 && rel.get_char(0) == '/' {
        return String::from_str(rel);
    }
    if nb == 0 {
        return String::from_str(rel);
    }
    let mut out = String::from_str(base);
    if base.get_char(nb - 1) != '/' {
        push_char(&mut out, '/');
    }
    out.append(rel);
    out
}

/// The temporary file a download session writes to, derived from its
/// destination path.
pub fn temp_download_path(save_path: &str) -> (r: String)
    ensures
        r@ == save_path@ + ".downloading"@,
{
    let mut out = String::from_str(save_path);
    out.append(".downloading");
    out
}

/// The log-file name for a helper process: the first agent's name carries
/// only the process id, later ones also carry their index.
pub fn agent_log_filename(agent_index: usize, pid: u64) -> (r: String)
    ensures
        agent_index == 0 ==> r@ == "mxu-agent-"@ + dec_digits(pid as nat) + ".log"@,
        agent_index != 0 ==> r@ == "mxu-agent-"@ + dec_digits(agent_index as nat) + seq!['-']
            + dec_digits(pid as nat) + ".log"@,
{
    let mut out = String::from_str("mxu-agent-");
    if agent_index != 0 {
        let idx = u64_to_string(agent_index as u64);
        out.append(idx.as_str());
        push_char(&mut out, '-');
    }
    let p = u64_to_string(pid);
    out.append(p.as_str());
    out.append(".log");
    out
}

/// The input with every leading `'v'` removed.
pub open spec fn strip_v(s: Seq<char>) -> Seq<char>
    decreases s.len(),
{
    if s.len() > 0 && s[0] == 'v' {
        strip_v(s.skip(1))
    } else {
        s
    }
}

/// Removes every leading `'v'` from a version string.
pub fn strip_v_prefix(s: &str) -> (r: String)
    ensures
        r@ == strip_v(s@),
{
    let n = s.unicode_len();
    let mut i: usize = 0;
    proof {
        assert(s@.skip(0) =~= s@);
    }
    while i < n && s.get_char(i) == 'v'
        invariant
            0 <= i <= n,
            n == s@.len(),
            strip_v(s@) == strip_v(s@.skip(i as int)),
        decreases n - i,
    {
        proof {
            assert(s@.skip(i as int).skip(1) =~= s@.skip(i + 1));
        }
        i = i + 1;
    }
    let tail = s.substring_char(i, n);
    proof {
        assert(s@.skip(i as int) =~= s@.subrange(i as int, n as int));
    }
    String::from_str(tail)
}

/// The folder name a sidestepped release unpacks into: a `'v'` followed by
/// the version with its own leading `'v'`s removed.
pub fn version_folder_name(version: &str) -> (r: String)
    ensures
        r@ == seq!['v'] + strip_v(version@),
{
    let mut out = String::new();
    push_char(&mut out, 'v');
    let stripped = strip_v_prefix(version);
    out.append(stripped.as_str());
    out
}

/// A character lowered to its ASCII lower-case form; anything else is
/// kept.
pub open spec fn lower_char(c: char) -> char {
    if 65 <= c as u32 <= 90 {
        ((c as u32 + 32) as u8) as char
    } else {
        c
    }
}

/// Whether a name ends with a suffix, compared ASCII-case-insensitively.
pub open spec fn ends_with_ci(s: Seq<char>, suffix: Seq<char>) -> bool {
    s.len() >= suffix.len() && forall|k: int|
        0 <= k < suffix.len() ==> lower_char(s[s.len() - suffix.len() + k]) == lower_char(
            #[trigger] suffix[k],
        )
}

fn lower_c(c: char) -> (r: char)
    ensures
        r == lower_char(c),
{
    let u = c as u32;
    if 65 <= u && u <= 90 {
        ((u + 32) as u8) as char
    } else {
        c
    }
}

/// Tests a case-insensitive suffix.
pub fn has_suffix_ci(s: &str, suffix: &str) -> (r: bool)
    ensures
        r == ends_with_ci(s@, suffix@),
{
    let n = s.unicode_len();
    let m = suffix.unicode_len();
    if n < m {
        return false;
    }
    let mut k: usize = 0;
    while k < m
        invariant
            0 <= k <= m,
            m <= n,
            n == s@.len(),
            m == suffix@.len(),
            forall|j: int|
                0 <= j < k ==> lower_char(s@[n - m + j]) == lower_char(#[trigger] suffix@[j]),
        decreases m - k,
    {
        if lower_c(s.get_char(n - m + k)) != lower_c(suffix.get_char(k)) {
            return false;
        }
        k = k + 1;
    }
    true
}

/// Which archive format a package name announces.
#[derive(Clone, Copy, Debug, PartialEq, Eq, Structural)]
pub enum ArchiveKind {
    /// A gzip-compressed tar archive.
    TarGz,
    /// Anything else is treated as a zip archive.
    Zip,
}

/// Whether a package name announces a gzip-compressed tar archive.
pub open spec fn is_tar_gz_name(s: Seq<char>) -> bool {
    ends_with_ci(s, ".tar.gz"@) || ends_with_ci(s, ".tgz"@)
}

/// Decides the extraction path from the package name, the way the
/// updater dispatches: tarball suffixes go to the tar path, everything
/// else to the zip path.
pub fn archive_kind(path: &str) -> (r: ArchiveKind)
    ensures
        (r is TarGz) == is_tar_gz_name(path@),
{
    if has_suffix_ci(path, ".tar.gz") || has_suffix_ci(path, ".tgz") {
        ArchiveKind::TarGz
    } else {
        ArchiveKind::Zip
    }
}

/// The engine library directory to use: a caller-provided non-empty one
/// wins, otherwise the default location applies.
pub fn resolve_lib_dir(provided: Option<String>, default_dir: String) -> (r: String)
    ensures
        match provided {
            Some(d) => if d@.len() > 0 {
                r@ == d@
            } else {
                r@ == default_dir@
            },
            None => r@ == default_dir@,
        },
{
    match provided {
        Some(d) => if d.as_str().unicode_len() > 0 {
            d
        } else {
            default_dir
        },
        None => default_dir,
    }
}

/// A number zero-padded to three decimal digits.
pub open spec fn pad3(n: nat) -> Seq<char> {
    if n < 10 {
        seq!['0', '0'] + dec_digits(n)
    } else if n < 100 {
        seq!['0'] + dec_digits(n)
    } else {
        dec_digits(n)
    }
}

/// The conflict-avoiding backup name for a file moved aside.
pub fn backup_file_name(base: &str, i: u64) -> (r: String)
    requires
        1 <= i <= 999,
    ensures
        r@ == base@ + ".bak"@ + pad3(i as nat),
{
    let mut out = String::from_str(base);
    out.append(".bak");
    if i < 10 {
        push_char(&mut out, '0');
        push_char(&mut out, '0');
    } else if i < 100 {
        push_char(&mut out, '0');
    }
    let digits = u64_to_string(i);
    out.append(digits.as_str());
    out
}

} // verus!
