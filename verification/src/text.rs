//! Small text utilities shared by the JSON codec and the console loop:
//! turning a `&str` into its characters, appending single characters to a
//! `String`, and trimming the line terminator from a line of input.

use vstd::prelude::*;

verus! {

/// Relies on `String::push`: appends the given character to the end of the
/// string, and does nothing else.
pub assume_specification[ String::push ](s: &mut String, c: char)
    ensures
        final(s)@ == old(s)@.push(c),
;

/// The characters of `s`, in order.
pub fn chars_of(s: &str) -> (v: Vec<char>)
    ensures
        v@ == s@,
{
    let n = s.unicode_len();
    let mut v: Vec<char> = Vec::new();
    let mut i: usize = 0;
    while i < n
        invariant
            i <= n,
            n == s@.len(),
            v@ == s@.subrange(0, i as int),
        decreases n - i,
    {
        v.push(s.get_char(i));
        proof {
            assert(s@.subrange(0, i + 1) =~= s@.subrange(0, i as int).push(s@[i as int]));
        }
        i += 1;
    }
    proof {
        assert(s@.subrange(0, n as int) =~= s@);
    }
    v
}

/// A line of input with its trailing line terminator (`"\n"` or `"\r\n"`)
/// removed; anything else, including interior terminators and other trailing
/// whitespace, is kept.
pub open spec fn spec_trim_line(s: Seq<char>) -> Seq<char> {
    if s.len() >= 1 && s[s.len() - 1] == '\n' {
        if s.len() >= 2 && s[s.len() - 2] == '\r' {
            s.subrange(0, s.len() - 2)
        } else {
            s.subrange(0, s.len() - 1)
        }
    } else {
        s
    }
}

/// Removes the trailing line terminator from one line read from the console.
pub fn trim_line(s: &str) -> (r: String)
    ensures
        r@ == spec_trim_line(s@),
{
    let n = s.unicode_len();
    if n >= 1 && s.get_char(n - 1) == '\n' {
        if n >= 2 && s.get_char(n - 2) == '\r' {
            String::from_str(s.substring_char(0, n - 2))
        } else {
            String::from_str(s.substring_char(0, n - 1))
        }
    } else {
        String::from_str(s)
    }
}

} // verus!
