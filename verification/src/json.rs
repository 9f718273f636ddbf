//! The JSON wire format, as far as this client needs it: escaping of string
//! values on the way out, and exact scanners for string, number and literal
//! tokens on the way in.
//!
//! Each scanner here matches its token exactly where it stands; whether
//! whitespace may come between tokens is the schema's decision. The request
//! reader is canonical, since it reads back only what this library's own
//! serializer writes; the response reader skips insignificant JSON
//! whitespace, since that text comes from the remote. A malformed escape, a
//! number out of range, or a stray character is a mismatch either way, and
//! the schema parsers turn it into a decoding failure.

use vstd::prelude::*;
use vstd::utf8::is_scalar;
use crate::text::chars_of;

verus! {

// ---------------------------------------------------------------------------
// Characters and digits
// ---------------------------------------------------------------------------

/// A decimal digit.
pub open spec fn is_digit(c: char) -> bool {
    ('0' as u32) <= (c as u32) && (c as u32) <= ('9' as u32)
}

/// The value of a decimal digit.
pub open spec fn digit_val(c: char) -> nat {
    ((c as u32) - ('0' as u32)) as nat
}

/// A hexadecimal digit, in either case.
pub open spec fn is_hex_digit(c: char) -> bool {
    ||| is_digit(c)
    ||| ('a' as u32) <= (c as u32) && (c as u32) <= ('f' as u32)
    ||| ('A' as u32) <= (c as u32) && (c as u32) <= ('F' as u32)
}

/// The value of a hexadecimal digit.
pub open spec fn hex_val(c: char) -> nat {
    if is_digit(c) {
        digit_val(c)
    } else if ('a' as u32) <= (c as u32) && (c as u32) <= ('f' as u32) {
        ((c as u32) - ('a' as u32) + 10) as nat
    } else {
        ((c as u32) - ('A' as u32) + 10) as nat
    }
}

/// The lower-case hexadecimal digit for a value below 16.
pub open spec fn hex_digit_char(n: nat) -> char {
    if n == 0 { '0' } else if n == 1 { '1' } else if n == 2 { '2' } else if n == 3 { '3' }
    else if n == 4 { '4' } else if n == 5 { '5' } else if n == 6 { '6' } else if n == 7 { '7' }
    else if n == 8 { '8' } else if n == 9 { '9' } else if n == 10 { 'a' } else if n == 11 { 'b' }
    else if n == 12 { 'c' } else if n == 13 { 'd' } else if n == 14 { 'e' } else { 'f' }
}

fn hex_digit_char_exec(n: u8) -> (r: char)
    requires
        n < 16,
    ensures
        r == hex_digit_char(n as nat),
{
    if n == 0 { '0' } else if n == 1 { '1' } else if n == 2 { '2' } else if n == 3 { '3' }
    else if n == 4 { '4' } else if n == 5 { '5' } else if n == 6 { '6' } else if n == 7 { '7' }
    else if n == 8 { '8' } else if n == 9 { '9' } else if n == 10 { 'a' } else if n == 11 { 'b' }
    else if n == 12 { 'c' } else if n == 13 { 'd' } else if n == 14 { 'e' } else { 'f' }
}

fn hex_val_exec(c: char) -> (r: Option<u8>)
    ensures
        r is Some <==> is_hex_digit(c),
        r is Some ==> r == Some((hex_val(c) as u8)),
{
    let u = c as u32;
    if 0x30 <= u && u <= 0x39 {
        Some((u - 0x30) as u8)
    } else if 0x61 <= u && u <= 0x66 {
        Some((u - 0x61 + 10) as u8)
    } else if 0x41 <= u && u <= 0x46 {
        Some((u - 0x41 + 10) as u8)
    } else {
        None
    }
}

// ---------------------------------------------------------------------------
// Escaping string values
// ---------------------------------------------------------------------------

/// How one character appears inside a JSON string: quotes and backslashes
/// are escaped, control characters are written as `\u00XX`, and every other
/// character stands for itself.
pub open spec fn esc_char(c: char) -> Seq<char> {
    if c == '"' {
        seq!['\\', '"']
    } else if c == '\\' {
        seq!['\\', '\\']
    } else if (c as u32) < 0x20 {
        seq!['\\', 'u', '0', '0',
            hex_digit_char((((c as u32) / 16) as nat)),
            hex_digit_char((((c as u32) % 16) as nat))]
    } else {
        seq![c]
    }
}

/// The body of a JSON string holding the given text.
pub open spec fn escaped(s: Seq<char>) -> Seq<char>
    decreases s.len(),
{
    if s.len() == 0 {
        Seq::empty()
    } else {
        escaped(s.drop_last()) + esc_char(s.last())
    }
}

/// A complete JSON string token holding the given text.
pub open spec fn jstr(s: Seq<char>) -> Seq<char> {
    seq!['"'] + escaped(s) + seq!['"']
}

/// Appends the JSON string token for `s`, quotes and escapes included.
pub fn append_jstring(out: &mut String, s: &str)
    ensures
        final(out)@ == old(out)@ + jstr(s@),
{
    out.push('"');
    let cs = chars_of(s);
    let mut idx: usize = 0;
    while idx < cs.len()
        invariant
            cs@ == s@,
            idx <= cs.len(),
            out@ == old(out)@ + seq!['"'] + escaped(s@.subrange(0, idx as int)),
        decreases cs.len() - idx,
    {
        let c = cs[idx];
        let ghost o0 = out@;
        if c == '"' {
            out.push('\\');
            out.push('"');
        } else if c == '\\' {
            out.push('\\');
            out.push('\\');
        } else if (c as u32) < 0x20 {
            out.push('\\');
            out.push('u');
            out.push('0');
            out.push('0');
            let u = c as u32;
            out.push(hex_digit_char_exec((u / 16) as u8));
            out.push(hex_digit_char_exec((u % 16) as u8));
        } else {
            out.push(c);
        }
        proof {
            assert(out@ =~= o0 + esc_char(c));
            assert(s@.subrange(0, idx + 1).drop_last() =~= s@.subrange(0, idx as int));
            assert(s@.subrange(0, idx + 1).last() == s@[idx as int]);
            assert(out@ =~= old(out)@ + seq!['"'] + escaped(s@.subrange(0, idx + 1)));
        }
        idx += 1;
    }
    proof {
        assert(s@.subrange(0, cs@.len() as int) =~= s@);
    }
    out.push('"');
    proof {
        assert(out@ =~= old(out)@ + jstr(s@));
    }
}

// ---------------------------------------------------------------------------
// Parsing: tokens
// ---------------------------------------------------------------------------

/// Consumes the exact token `tok` at position `i`, yielding the position
/// after it.
pub open spec fn expect(s: Seq<char>, i: int, tok: Seq<char>) -> Option<int> {
    if 0 <= i && i + tok.len() <= s.len() && s.subrange(i, i + tok.len()) == tok {
        Some(i + tok.len())
    } else {
        None
    }
}

/// Prepends one decoded character to the result of parsing the rest of a
/// string body.
pub open spec fn cons_char(c: char, rest: Option<(Seq<char>, int)>) -> Option<(Seq<char>, int)> {
    match rest {
        Some((t, j)) => Some((seq![c] + t, j)),
        None => None,
    }
}

/// Parses the body of a JSON string from position `i` up to and including
/// its closing quote, decoding escapes. Surrogate code points, even paired,
/// are not accepted.
pub open spec fn parse_jchars(s: Seq<char>, i: int) -> Option<(Seq<char>, int)>
    decreases s.len() - i,
{
    if i < 0 || i >= s.len() {
        None
    } else if s[i] == '"' {
        Some((Seq::empty(), i + 1))
    } else if s[i] == '\\' {
        if i + 1 < s.len() {
            let e = s[i + 1];
            if e == '"' { cons_char('"', parse_jchars(s, i + 2)) }
            else if e == '\\' { cons_char('\\', parse_jchars(s, i + 2)) }
            else if e == '/' { cons_char('/', parse_jchars(s, i + 2)) }
            else if e == 'b' { cons_char('\u{0008}', parse_jchars(s, i + 2)) }
            else if e == 'f' { cons_char('\u{000C}', parse_jchars(s, i + 2)) }
            else if e == 'n' { cons_char('\n', parse_jchars(s, i + 2)) }
            else if e == 'r' { cons_char('\r', parse_jchars(s, i + 2)) }
            else if e == 't' { cons_char('\t', parse_jchars(s, i + 2)) }
            else if e == 'u' {
                if i + 6 <= s.len() && is_hex_digit(s[i + 2]) && is_hex_digit(s[i + 3])
                    && is_hex_digit(s[i + 4]) && is_hex_digit(s[i + 5]) {
                    let v = (hex_val(s[i + 2]) * 4096 + hex_val(s[i + 3]) * 256
                        + hex_val(s[i + 4]) * 16 + hex_val(s[i + 5])) as u32;
                    if is_scalar(v) {
                        cons_char(v as char, parse_jchars(s, i + 6))
                    } else {
                        None
                    }
                } else {
                    None
                }
            } else {
                None
            }
        } else {
            None
        }
    } else {
        cons_char(s[i], parse_jchars(s, i + 1))
    }
}

/// Parses a complete JSON string token at position `i`.
pub open spec fn parse_jstring(s: Seq<char>, i: int) -> Option<(Seq<char>, int)> {
    if 0 <= i && i < s.len() && s[i] == '"' {
        parse_jchars(s, i + 1)
    } else {
        None
    }
}

/// Accumulates the run of decimal digits starting at `i`.
pub open spec fn parse_num_rec(s: Seq<char>, i: int, acc: nat) -> (nat, int)
    decreases s.len() - i,
{
    if 0 <= i && i < s.len() && is_digit(s[i]) {
        parse_num_rec(s, i + 1, acc * 10 + digit_val(s[i]))
    } else {
        (acc, i)
    }
}

/// Parses a non-negative integer at position `i`; a value that does not fit
/// in 32 bits is a mismatch, not a truncation.
pub open spec fn parse_u32_at(s: Seq<char>, i: int) -> Option<(u32, int)> {
    if 0 <= i && i < s.len() && is_digit(s[i]) {
        let (v, j) = parse_num_rec(s, i, 0);
        if v <= u32::MAX {
            Some((v as u32, j))
        } else {
            None
        }
    } else {
        None
    }
}

// ---------------------------------------------------------------------------
// Parsing: executable scanners
// ---------------------------------------------------------------------------

/// Relies on `char::from_u32`: yields the character with the given code
/// point exactly when the value is a Unicode scalar (not a surrogate and at
/// most 0x10FFFF), and `None` otherwise.
#[verifier::external_body]
fn char_from_u32(u: u32) -> (r: Option<char>)
    ensures
        r is Some <==> is_scalar(u),
        r is Some ==> r == Some(u as char),
{
    char::from_u32(u)
}

/// Consumes the literal `tok` at position `i`.
pub(crate) fn expect_tok(v: &Vec<char>, i: usize, tok: &str) -> (r: Option<usize>)
    ensures
        match r {
            Some(j) => expect(v@, i as int, tok@) == Some(j as int) && i <= j <= v.len(),
            None => expect(v@, i as int, tok@) is None,
        },
{
    let m = tok.unicode_len();
    if i > v.len() || m > v.len() - i {
        return None;
    }
    let mut k: usize = 0;
    while k < m
        invariant
            k <= m,
            i + m <= v.len(),
            m == tok@.len(),
            forall|t: int| 0 <= t < k ==> v@[i + t] == tok@[t],
        decreases m - k,
    {
        if v[i + k] != tok.get_char(k) {
            proof {
                let sub = v@.subrange(i as int, i + m);
                assert(sub[k as int] == v@[i + k]);
                assert(sub != tok@);
            }
            return None;
        }
        k += 1;
    }
    proof {
        assert(v@.subrange(i as int, i + m) =~= tok@);
    }
    Some(i + m)
}

/// Scans a JSON string token at position `i`, returning the decoded text and
/// the position after the closing quote.
pub(crate) fn scan_jstring(v: &Vec<char>, i: usize) -> (r: Option<(String, usize)>)
    ensures
        match r {
            Some((t, j)) => parse_jstring(v@, i as int) == Some((t@, j as int)) && j <= v.len(),
            None => parse_jstring(v@, i as int) is None,
        },
{
    if i >= v.len() || v[i] != '"' {
        return None;
    }
    let mut out = String::new();
    let mut k: usize = i + 1;
    loop
        invariant
            i + 1 <= k <= v.len(),
            i < v.len(),
            v@[i as int] == '"',
            parse_jchars(v@, i + 1) == (match parse_jchars(v@, k as int) {
                Some((t, j)) => Some((out@ + t, j)),
                None => None,
            }),
        decreases v.len() - k,
    {
        if k >= v.len() {
            return None;
        }
        let c = v[k];
        if c == '"' {
            proof {
                assert(out@ + Seq::<char>::empty() =~= out@);
            }
            return Some((out, k + 1));
        }
        let mut ch: char = c;
        let mut step: usize = 1;
        if c == '\\' {
            if k + 1 >= v.len() {
                return None;
            }
            let e = v[k + 1];
            if e == '"' { ch = '"'; step = 2; }
            else if e == '\\' { ch = '\\'; step = 2; }
            else if e == '/' { ch = '/'; step = 2; }
            else if e == 'b' { ch = '\u{0008}'; step = 2; }
            else if e == 'f' { ch = '\u{000C}'; step = 2; }
            else if e == 'n' { ch = '\n'; step = 2; }
            else if e == 'r' { ch = '\r'; step = 2; }
            else if e == 't' { ch = '\t'; step = 2; }
            else if e == 'u' {
                if v.len() < 6 || k > v.len() - 6 {
                    return None;
                }
                let d0 = hex_val_exec(v[k + 2]);
                let d1 = hex_val_exec(v[k + 3]);
                let d2 = hex_val_exec(v[k + 4]);
                let d3 = hex_val_exec(v[k + 5]);
                match (d0, d1, d2, d3) {
                    (Some(a), Some(b), Some(cc), Some(d)) => {
                        let code: u32 = (a as u32) * 4096 + (b as u32) * 256
                            + (cc as u32) * 16 + (d as u32);
                        match char_from_u32(code) {
                            Some(c2) => { ch = c2; step = 6; },
                            None => {
                                return None;
                            },
                        }
                    },
                    _ => {
                        return None;
                    },
                }
            } else {
                return None;
            }
        }
        proof {
            assert(parse_jchars(v@, k as int) == cons_char(ch, parse_jchars(v@, k + step)));
        }
        let ghost o0 = out@;
        out.push(ch);
        proof {
            if let Some((t, j)) = parse_jchars(v@, k + step) {
                assert(o0 + (seq![ch] + t) =~= out@ + t);
            }
        }
        k = k + step;
    }
}

/// Scans a non-negative 32-bit integer at position `i`.
pub(crate) fn scan_u32(v: &Vec<char>, i: usize) -> (r: Option<(u32, usize)>)
    ensures
        match r {
            Some((x, j)) => parse_u32_at(v@, i as int) == Some((x, j as int)) && j <= v.len(),
            None => parse_u32_at(v@, i as int) is None,
        },
{
    if i >= v.len() {
        return None;
    }
    let c0 = v[i] as u32;
    if !(0x30 <= c0 && c0 <= 0x39) {
        return None;
    }
    let mut k: usize = i;
    let mut acc: u64 = 0;
    let ghost mut g: nat = 0nat;
    let mut over: bool = false;
    loop
        invariant
            i <= k <= v.len(),
            parse_num_rec(v@, i as int, 0nat) == parse_num_rec(v@, k as int, g),
            !over ==> g == acc as nat && g <= u32::MAX,
            over ==> g > u32::MAX,
        ensures
            i <= k <= v.len(),
            parse_num_rec(v@, i as int, 0nat) == parse_num_rec(v@, k as int, g),
            !over ==> g == acc as nat && g <= u32::MAX,
            over ==> g > u32::MAX,
            k >= v.len() || !is_digit(v@[k as int]),
        decreases v.len() - k,
    {
        if k >= v.len() {
            break;
        }
        let c = v[k] as u32;
        if !(0x30 <= c && c <= 0x39) {
            break;
        }
        let d: u64 = (c - 0x30) as u64;
        proof {
            assert(is_digit(v@[k as int]));
            assert(digit_val(v@[k as int]) == d as nat);
            assert(parse_num_rec(v@, k as int, g) == parse_num_rec(v@, k + 1, g * 10 + d as nat));
            if over {
                assert(g * 10 + d as nat >= g);
            }
        }
        if !over {
            let n: u64 = acc * 10 + d;
            if n > 0xFFFF_FFFF {
                over = true;
            } else {
                acc = n;
            }
        }
        proof {
            g = g * 10 + d as nat;
        }
        k = k + 1;
    }
    if over {
        None
    } else {
        Some((acc as u32, k))
    }
}

} // verus!
