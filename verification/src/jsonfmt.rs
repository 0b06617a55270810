//! Verified JSON text fragments for the outbound protocol: decimal
//! rendering of integers and JSON string quoting with escapes.

use vstd::prelude::*;
use vstd::string::{StrSliceExecFns, StringExecFns};

verus! {

/// The decimal digit character for `d` in `0..10`.
pub open spec fn digit_char(d: int) -> char {
    if d == 0 { '0' }
    else if d == 1 { '1' }
    else if d == 2 { '2' }
    else if d == 3 { '3' }
    else if d == 4 { '4' }
    else if d == 5 { '5' }
    else if d == 6 { '6' }
    else if d == 7 { '7' }
    else if d == 8 { '8' }
    else { '9' }
}

/// The decimal rendering of `n`, most significant digit first, no sign
/// and no leading zeros (`0` renders as "0").
pub open spec fn spec_u64_dec(n: nat) -> Seq<char>
    decreases n,
{
    if n < 10 {
        seq![digit_char(n as int)]
    } else {
        spec_u64_dec(n / 10) + seq![digit_char((n % 10) as int)]
    }
}

/// The decimal rendering of `n`, with a leading '-' when negative.
pub open spec fn spec_i64_dec(n: int) -> Seq<char> {
    if n < 0 {
        seq!['-'] + spec_u64_dec((-n) as nat)
    } else {
        spec_u64_dec(n as nat)
    }
}

fn digit_str(d: u64) -> (r: &'static str)
    requires
        d < 10,
    ensures
        r@ == seq![digit_char(d as int)],
{
    proof {
        reveal_strlit("0");
        reveal_strlit("1");
        reveal_strlit("2");
        reveal_strlit("3");
        reveal_strlit("4");
        reveal_strlit("5");
        reveal_strlit("6");
        reveal_strlit("7");
        reveal_strlit("8");
        reveal_strlit("9");
    }
    match d {
        0 => "0",
        1 => "1",
        2 => "2",
        3 => "3",
        4 => "4",
        5 => "5",
        6 => "6",
        7 => "7",
        8 => "8",
        _ => "9",
    }
}

/// Appends the decimal rendering of `n` to `out`.
pub fn u64_dec_append(n: u64, out: &mut String)
    ensures
        final(out)@ == old(out)@ + spec_u64_dec(n as nat),
    decreases n,
{
    if n < 10 {
        out.append(digit_str(n));
    } else {
        u64_dec_append(n / 10, out);
        out.append(digit_str(n % 10));
        proof {
            assert(final(out)@ =~= old(out)@ + spec_u64_dec(n as nat));
        }
    }
}

/// The decimal rendering of `n` as a `String`.
pub fn u64_dec(n: u64) -> (s: String)
    ensures
        s@ == spec_u64_dec(n as nat),
{
    let mut s = String::new();
    u64_dec_append(n, &mut s);
    proof {
        assert(s@ =~= spec_u64_dec(n as nat));
    }
    s
}

/// Appends the signed decimal rendering of `n` to `out`.
pub fn i64_dec_append(n: i64, out: &mut String)
    ensures
        final(out)@ == old(out)@ + spec_i64_dec(n as int),
{
    if n >= 0 {
        u64_dec_append(n as u64, out);
    } else {
        proof {
            reveal_strlit("-");
        }
        out.append("-");
        let wide: i128 = n as i128;
        let m: u64 = (-wide) as u64;
        u64_dec_append(m, out);
        proof {
            assert(final(out)@ =~= old(out)@ + spec_i64_dec(n as int));
        }
    }
}

/// The signed decimal rendering of `n` as a `String`.
pub fn i64_dec(n: i64) -> (s: String)
    ensures
        s@ == spec_i64_dec(n as int),
{
    let mut s = String::new();
    i64_dec_append(n, &mut s);
    proof {
        assert(s@ =~= spec_i64_dec(n as int));
    }
    s
}

/// The hexadecimal digit character for `d` in `0..16`, lower case.
pub open spec fn hex_char(d: int) -> char {
    if d < 10 {
        digit_char(d)
    } else if d == 10 { 'a' }
    else if d == 11 { 'b' }
    else if d == 12 { 'c' }
    else if d == 13 { 'd' }
    else if d == 14 { 'e' }
    else { 'f' }
}

fn hex_str(d: u32) -> (r: &'static str)
    requires
        d < 16,
    ensures
        r@ == seq![hex_char(d as int)],
{
    if d < 10 {
        digit_str(d as u64)
    } else {
        proof {
            reveal_strlit("a");
            reveal_strlit("b");
            reveal_strlit("c");
            reveal_strlit("d");
            reveal_strlit("e");
            reveal_strlit("f");
        }
        match d {
            10 => "a",
            11 => "b",
            12 => "c",
            13 => "d",
            14 => "e",
            _ => "f",
        }
    }
}

/// The JSON escape of one character: quote and backslash are
/// backslash-escaped, the common control characters use their short
/// forms, the remaining control characters use `\u00XX`, and every
/// other character stands for itself.
pub open spec fn escape_char(c: char) -> Seq<char> {
    if c == '"' { seq!['\\', '"'] }
    else if c == '\\' { seq!['\\', '\\'] }
    else if c == '\u{8}' { seq!['\\', 'b'] }
    else if c == '\u{c}' { seq!['\\', 'f'] }
    else if c == '\n' { seq!['\\', 'n'] }
    else if c == '\r' { seq!['\\', 'r'] }
    else if c == '\t' { seq!['\\', 't'] }
    else if (c as u32) < 32 {
        seq!['\\', 'u', '0', '0', hex_char(c as int / 16), hex_char(c as int % 16)]
    } else {
        seq![c]
    }
}

/// Characters that stand for themselves inside a JSON string.
pub open spec fn is_plain(c: char) -> bool {
    c != '"' && c != '\\' && (c as u32) >= 32
}

/// The JSON escape of a whole string body.
pub open spec fn spec_escape(s: Seq<char>) -> Seq<char>
    decreases s.len(),
{
    if s.len() == 0 {
        Seq::empty()
    } else {
        spec_escape(s.drop_last()) + escape_char(s.last())
    }
}

proof fn lemma_escape_snoc(s: Seq<char>, i: int)
    requires
        0 <= i < s.len(),
    ensures
        spec_escape(s.take(i + 1)) == spec_escape(s.take(i)) + escape_char(s[i]),
{
    assert(s.take(i + 1).drop_last() =~= s.take(i));
    assert(s.take(i + 1).last() == s[i]);
}

proof fn lemma_escape_plain_run(s: Seq<char>, a: int, b: int)
    requires
        0 <= a <= b <= s.len(),
        forall|j: int| a <= j < b ==> is_plain(s[j]),
    ensures
        spec_escape(s.take(b)) == spec_escape(s.take(a)) + s.subrange(a, b),
    decreases b - a,
{
    if a == b {
        assert(spec_escape(s.take(a)) + s.subrange(a, a) =~= spec_escape(s.take(a)));
    } else {
        lemma_escape_plain_run(s, a, b - 1);
        lemma_escape_snoc(s, b - 1);
        assert(escape_char(s[b - 1]) =~= seq![s[b - 1]]);
        assert(spec_escape(s.take(a)) + s.subrange(a, b - 1) + seq![s[b - 1]]
            =~= spec_escape(s.take(a)) + s.subrange(a, b));
    }
}

fn is_plain_char(c: char) -> (b: bool)
    ensures
        b == is_plain(c),
{
    c != '"' && c != '\\' && (c as u32) >= 32
}

/// Appends the JSON escape of `s` (without surrounding quotes) to `out`.
pub fn escape_append(s: &str, out: &mut String)
    ensures
        final(out)@ == old(out)@ + spec_escape(s@),
{
    let n = s.unicode_len();
    let mut i: usize = 0;
    let mut run: usize = 0;
    while i < n
        invariant
            run <= i <= n,
            n == s@.len(),
            out@ == old(out)@ + spec_escape(s@.take(run as int)),
            forall|j: int| run <= j < i ==> is_plain(s@[j]),
        decreases n - i,
    {
        let c = s.get_char(i);
        if is_plain_char(c) {
            i = i + 1;
        } else {
            out.append(s.substring_char(run, i));
            proof {
                lemma_escape_plain_run(s@, run as int, i as int);
                assert(old(out)@ + spec_escape(s@.take(run as int))
                    + s@.subrange(run as int, i as int)
                    =~= old(out)@ + spec_escape(s@.take(i as int)));
            }
            let ghost before = out@;
            if c == '"' {
                out.append("\\\"");
                proof {
                    reveal_strlit("\\\"");
                    assert("\\\""@ =~= escape_char(c));
                }
            } else if c == '\\' {
                out.append("\\\\");
                proof {
                    reveal_strlit("\\\\");
                    assert("\\\\"@ =~= escape_char(c));
                }
            } else if c == '\u{8}' {
                out.append("\\b");
                proof {
                    reveal_strlit("\\b");
                    assert("\\b"@ =~= escape_char(c));
                }
            } else if c == '\u{c}' {
                out.append("\\f");
                proof {
                    reveal_strlit("\\f");
                    assert("\\f"@ =~= escape_char(c));
                }
            } else if c == '\n' {
                out.append("\\n");
                proof {
                    reveal_strlit("\\n");
                    assert("\\n"@ =~= escape_char(c));
                }
            } else if c == '\r' {
                out.append("\\r");
                proof {
                    reveal_strlit("\\r");
                    assert("\\r"@ =~= escape_char(c));
                }
            } else if c == '\t' {
                out.append("\\t");
                proof {
                    reveal_strlit("\\t");
                    assert("\\t"@ =~= escape_char(c));
                }
            } else {
                let code = c as u32;
                out.append("\\u00");
                out.append(hex_str(code / 16));
                out.append(hex_str(code % 16));
                proof {
                    reveal_strlit("\\u00");
                    assert("\\u00"@ + seq![hex_char(code as int / 16)]
                        + seq![hex_char(code as int % 16)] =~= escape_char(c));
                }
            }
            proof {
                assert(out@ =~= before + escape_char(c));
                lemma_escape_snoc(s@, i as int);
                assert(out@ =~= old(out)@ + spec_escape(s@.take(i + 1)));
            }
            run = i + 1;
            i = i + 1;
        }
    }
    out.append(s.substring_char(run, n));
    proof {
        lemma_escape_plain_run(s@, run as int, n as int);
        assert(s@.take(n as int) =~= s@);
        assert(final(out)@ =~= old(out)@ + spec_escape(s@));
    }
}

/// The JSON string literal for `s`: quoted and escaped.
pub open spec fn spec_quoted(s: Seq<char>) -> Seq<char> {
    seq!['"'] + spec_escape(s) + seq!['"']
}

/// Appends the JSON string literal for `s` to `out`.
pub fn quoted_append(s: &str, out: &mut String)
    ensures
        final(out)@ == old(out)@ + spec_quoted(s@),
{
    proof {
        reveal_strlit("\"");
    }
    out.append("\"");
    escape_append(s, out);
    out.append("\"");
    proof {
        assert(final(out)@ =~= old(out)@ + spec_quoted(s@));
    }
}

} // verus!
