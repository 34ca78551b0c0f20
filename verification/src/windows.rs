//! Desktop-window filtering: the caller enumerates windows through the
//! engine's toolkit, and this module keeps those whose class and title
//! match the requested patterns. A pattern that does not compile simply
//! does not filter, as a best-effort search should.

use vstd::prelude::*;
use crate::types::Win32Window;

verus! {

#[verifier::external_type_specification]
#[verifier::external_body]
pub struct ExRegex(regex::Regex);

/// Whether the regex engine accepts this pattern.
pub uninterp spec fn regex_valid(pattern: Seq<char>) -> bool;

/// Whether this pattern matches somewhere in this text, as the regex
/// engine decides it.
pub uninterp spec fn regex_match(pattern: Seq<char>, text: Seq<char>) -> bool;

/// A compiled pattern that remembers, in ghost form, the text it was
/// compiled from.
pub struct CompiledPattern {
    re: regex::Regex,
    pat: Ghost<Seq<char>>,
}

impl CompiledPattern {
    /// The pattern this value was compiled from.
    pub closed spec fn pattern(self) -> Seq<char> {
        self.pat@
    }
}

/// Relies on `regex::Regex::new`: compilation succeeds exactly on the
/// patterns the regex engine accepts.
#[verifier::external_body]
fn regex_new(pattern: &str) -> (r: Option<regex::Regex>)
    ensures
        (r is Some) == regex_valid(pattern@),
{
    match regex::Regex::new(pattern) {
        Ok(re) => Some(re),
        Err(_) => None,
    }
}

/// Compiles a pattern, remembering what it was compiled from. This is
/// the only place a `CompiledPattern` is built, so its private compiled
/// regex always stems from its recorded pattern.
pub fn compile_pattern(pattern: &str) -> (r: Option<CompiledPattern>)
    ensures
        (r is Some) == regex_valid(pattern@),
        r matches Some(p) ==> p.pattern() == pattern@,
{
    match regex_new(pattern) {
        Some(re) => Some(CompiledPattern { re, pat: Ghost(pattern@) }),
        None => None,
    }
}

/// Relies on `regex::Regex::is_match`: a pure function of the pattern
/// and the text. The pattern spoken of is the one this value was
/// compiled from, which the module's sole constructor guarantees.
#[verifier::external_body]
pub fn pattern_matches(p: &CompiledPattern, text: &str) -> (r: bool)
    ensures
        r == regex_match(p.pattern(), text@),
{
    p.re.is_match(text)
}

/// The pattern that actually filters: a missing or uncompilable pattern
/// filters nothing.
pub open spec fn effective_pattern(p: Option<String>) -> Option<Seq<char>> {
    match p {
        Some(s) => if regex_valid(s@) {
            Some(s@)
        } else {
            None
        },
        None => None,
    }
}

/// Whether a window passes both (optional) patterns.
pub open spec fn window_passes(
    w: Win32Window,
    cls: Option<Seq<char>>,
    win: Option<Seq<char>>,
) -> bool {
    &&& match cls {
        Some(p) => regex_match(p, w.class_name@),
        None => true,
    }
    &&& match win {
        Some(p) => regex_match(p, w.window_name@),
        None => true,
    }
}

/// The windows that pass both patterns, in enumeration order.
pub open spec fn kept_windows(
    ws: Seq<Win32Window>,
    cls: Option<Seq<char>>,
    win: Option<Seq<char>>,
) -> Seq<Win32Window> {
    ws.filter(|w: Win32Window| window_passes(w, cls, win))
}

proof fn lemma_kept_windows_push(
    ws: Seq<Win32Window>,
    w: Win32Window,
    cls: Option<Seq<char>>,
    win: Option<Seq<char>>,
)
    ensures
        window_passes(w, cls, win) ==> kept_windows(ws.push(w), cls, win) == kept_windows(
            ws,
            cls,
            win,
        ).push(w),
        !window_passes(w, cls, win) ==> kept_windows(ws.push(w), cls, win) == kept_windows(
            ws,
            cls,
            win,
        ),
{
    reveal(Seq::filter);
    assert(ws.push(w).drop_last() =~= ws);
    assert(ws.push(w).last() == w);
}

/// Keeps the enumerated windows whose class name and window name match
/// the requested patterns; a pattern that is absent or does not compile
/// does not filter.
pub fn filter_windows(
    windows: Vec<Win32Window>,
    class_regex: &Option<String>,
    window_regex: &Option<String>,
) -> (r: Vec<Win32Window>)
    ensures
        r@ == kept_windows(
            windows@,
            effective_pattern(*class_regex),
            effective_pattern(*window_regex),
        ),
{
    let ghost cls = effective_pattern(*class_regex);
    let ghost win = effective_pattern(*window_regex);
    let class_pat: Option<CompiledPattern> = match class_regex {
        Some(s) => compile_pattern(s.as_str()),
        None => None,
    };
    let window_pat: Option<CompiledPattern> = match window_regex {
        Some(s) => compile_pattern(s.as_str()),
        None => None,
    };
    proof {
        match &class_pat {
            Some(p) => assert(cls == Some(p.pattern())),
            None => assert(cls is None),
        }
        match &window_pat {
            Some(p) => assert(win == Some(p.pattern())),
            None => assert(win is None),
        }
    }
    let ghost orig = windows@;
    let mut rest = windows;
    let mut out: Vec<Win32Window> = Vec::new();
    let ghost mut k: int = 0;
    while rest.len() > 0
        invariant
            0 <= k <= orig.len(),
            rest@ =~= orig.skip(k),
            out@ == kept_windows(orig.take(k), cls, win),
            match class_pat {
                Some(p) => cls == Some(p.pattern()),
                None => cls is None,
            },
            match window_pat {
                Some(p) => win == Some(p.pattern()),
                None => win is None,
            },
        decreases rest@.len(),
    {
        let w = rest.remove(0);
        proof {
            assert(w == orig[k]);
            assert(orig.take(k + 1) =~= orig.take(k).push(w));
            lemma_kept_windows_push(orig.take(k), w, cls, win);
        }
        let class_ok = match &class_pat {
            Some(p) => pattern_matches(p, w.class_name.as_str()),
            None => true,
        };
        let window_ok = match &window_pat {
            Some(p) => pattern_matches(p, w.window_name.as_str()),
            None => true,
        };
        if class_ok && window_ok {
            out.push(w);
        }
        proof {
            assert(rest@ =~= orig.skip(k + 1));
            k = k + 1;
        }
    }
    proof {
        assert(orig.take(orig.len() as int) =~= orig);
        assert(k == orig.len());
    }
    out
}

} // verus!
