//! Verified text helpers: decimal formatting and parsing, character
//! classification, and the few `String` building blocks the rest of the
//! crate needs.

use vstd::prelude::*;
use vstd::string::*;

verus! {

/// Relies on `String::push`: appends exactly one character.
#[verifier::external_body]
pub fn push_char(s: &mut String, c: char)
    ensures
        final(s)@ == old(s)@.push(c),
{
    s.push(c);
}

/// The decimal digit character for a value below ten.
pub open spec fn digit_char(d: nat) -> char {
    ((48 + d) as u8) as char
}

/// The canonical decimal rendering of a natural number (no leading zeros,
/// a single `'0'` for zero).
pub open spec fn dec_digits(n: nat) -> Seq<char>
    decreases n,
{
    if n < 10 {
        seq![digit_char(n)]
    } else {
        dec_digits(n / 10).push(digit_char(n % 10))
    }
}

fn digit_to_char(d: u64) -> (c: char)
    requires
        d < 10,
    ensures
        c == digit_char(d as nat),
{
    ((48 + d as u8)) as char
}

/// Renders a `u64` in decimal, the way the standard formatter would.
pub fn u64_to_string(n: u64) -> (r: String)
    ensures
        r@ == dec_digits(n as nat),
    decreases n,
{
    if n < 10 {
        let mut s = String::new();
        push_char(&mut s, digit_to_char(n));
        assert(s@ =~= dec_digits(n as nat));
        s
    } else {
        let mut s = u64_to_string(n / 10);
        push_char(&mut s, digit_to_char(n % 10));
        s
    }
}

/// Whether a character is a decimal digit.
pub open spec fn is_digit(c: char) -> bool {
    48 <= (c as u32) <= 57
}

/// The numeric value of a digit character.
pub open spec fn digit_val(c: char) -> nat {
    ((c as u32) - 48) as nat
}

/// Whether every character of a sequence is a decimal digit.
pub open spec fn all_digits(s: Seq<char>) -> bool {
    forall|i: int| 0 <= i < s.len() ==> is_digit(#[trigger] s[i])
}

/// The value of a digit sequence read in base ten.
pub open spec fn dec_val(s: Seq<char>) -> nat
    decreases s.len(),
{
    if s.len() == 0 {
        0
    } else {
        dec_val(s.drop_last()) * 10 + digit_val(s.last())
    }
}

/// The input with a single leading `'+'` sign removed, as the standard
/// integer parser accepts one.
pub open spec fn strip_plus(s: Seq<char>) -> Seq<char> {
    if s.len() > 0 && s[0] == '+' {
        s.skip(1)
    } else {
        s
    }
}

proof fn lemma_dec_val_grows(s: Seq<char>, i: int)
    requires
        0 <= i <= s.len(),
    ensures
        dec_val(s.take(i)) <= dec_val(s),
    decreases s.len() - i,
{
    if i < s.len() {
        assert(s.take(i + 1).drop_last() =~= s.take(i));
        assert(s.take(i + 1).last() == s[i]);
        assert(dec_val(s.take(i)) <= dec_val(s.take(i + 1)));
        lemma_dec_val_grows(s, i + 1);
    } else {
        assert(s.take(i) =~= s);
    }
}

/// Parses a decimal `u64` as the standard parser does: an optional leading
/// `'+'`, then one or more digits, rejecting overflow.
pub fn parse_u64(s: &str) -> (r: Option<u64>)
    ensures
        r is Some <==> parses_u64(s@),
        r matches Some(v) ==> v == parsed_u64(s@),
{
    let n = s.unicode_len();
    let mut start: usize = 0;
    if n > 0 && s.get_char(0) == '+' {
        start = 1;
    }
    let ghost t = strip_plus(s@);
    proof {
        assert(t =~= s@.skip(start as int));
    }
    if start == n {
        return None;
    }
    let mut v: u64 = 0;
    let mut i: usize = start;
    while i < n
        invariant
            start <= i <= n,
            n == s@.len(),
            start < n,
            t == strip_plus(s@),
            t == s@.skip(start as int),
            all_digits(t.take(i - start)),
            v == dec_val(t.take(i - start)),
        decreases n - i,
    {
        let c = s.get_char(i);
        let cu = c as u32;
        if cu < 48 || cu > 57 {
            proof {
                assert(t[i - start] == s@[i as int]);
                assert(!is_digit(t[i - start]));
            }
            return None;
        }
        let d: u64 = (cu - 48) as u64;
        proof {
            assert(t.take(i - start + 1).drop_last() =~= t.take(i - start));
            assert(t.take(i - start + 1).last() == t[i - start]);
            assert(t[i - start] == s@[i as int]);
        }
        if v > (u64::MAX - d) / 10 {
            proof {
                assert(dec_val(t.take(i - start + 1)) == v * 10 + d);
                assert(dec_val(t.take(i - start + 1)) > u64::MAX);
                lemma_dec_val_grows(t, i - start + 1);
            }
            return None;
        }
        v = v * 10 + d;
        i = i + 1;
    }
    proof {
        assert(t.take(n - start) =~= t);
    }
    Some(v)
}

/// Whether the decimal parser accepts this input.
pub open spec fn parses_u64(s: Seq<char>) -> bool {
    let t = strip_plus(s);
    t.len() > 0 && all_digits(t) && dec_val(t) <= u64::MAX
}

/// The value the decimal parser reads from an accepted input.
pub open spec fn parsed_u64(s: Seq<char>) -> nat {
    dec_val(strip_plus(s))
}

/// Whether two string slices hold the same characters.
pub fn str_eq(a: &str, b: &str) -> (r: bool)
    ensures
        r == (a@ == b@),
{
    let na = a.unicode_len();
    let nb = b.unicode_len();
    if na != nb {
        return false;
    }
    let mut i: usize = 0;
    while i < na
        invariant
            0 <= i <= na,
            na == a@.len(),
            na == b@.len(),
            forall|j: int| 0 <= j < i ==> a@[j] == b@[j],
        decreases na - i,
    {
        if a.get_char(i) != b.get_char(i) {
            return false;
        }
        i = i + 1;
    }
    proof {
        assert(a@ =~= b@);
    }
    true
}

/// Builds the user-agent string from the host details it mentions.
pub fn build_user_agent(version: &str, os: &str, arch: &str, tauri_version: &str) -> (r: String)
    ensures
        r@ == "MXU/"@ + version@ + " ("@ + os@ + "; "@ + arch@ + ") Tauri/"@ + tauri_version@,
{
    let mut out = String::from_str("MXU/");
    out.append(version);
    out.append(" (");
    out.append(os);
    out.append("; ");
    out.append(arch);
    out.append(") Tauri/");
    out.append(tauri_version);
    out
}

/// Builds one helper log line: the timestamp, the stream tag in
/// brackets, then the line itself.
pub fn format_log_line(timestamp: &str, stream: &str, line: &str) -> (r: String)
    ensures
        r@ == timestamp@ + " ["@ + stream@ + "] "@ + line@,
{
    let mut out = String::from_str(timestamp);
    out.append(" [");
    out.append(stream);
    out.append("] ");
    out.append(line);
    out
}

} // verus!
