//! The inbound side of the exchange: a parser for the response body of a
//! chat-completion call, including the token-accounting check that a
//! response must pass before it is believed.
//!
//! The response text comes from the remote, so insignificant JSON
//! whitespace (space, tab, line feed, carriage return) is accepted anywhere
//! between tokens, leading and trailing included. Two readings of the wire
//! shape are deliberately strict: the members of each object must appear in
//! the order of the wire template, and member names must be spelled
//! plainly, without escapes. A missing, extra or wrong-typed member is a
//! mismatch, as is token accounting that does not add up.

use vstd::prelude::*;
use crate::json::{expect, parse_jstring, parse_u32_at, expect_tok, scan_jstring, scan_u32};
use crate::model::{
    ChatMessage, ChatMessageV, ChoiceResult, ChoiceResultV, UsageStats, ApiResponse, ApiResponseV,
};
use crate::text::chars_of;

verus! {

// ---------------------------------------------------------------------------
// Whitespace and whitespace-tolerant tokens
// ---------------------------------------------------------------------------

/// Insignificant JSON whitespace.
pub open spec fn is_ws(c: char) -> bool {
    c == ' ' || c == '\t' || c == '\n' || c == '\r'
}

/// The first position at or after `i` that holds no whitespace.
pub open spec fn skip_ws(s: Seq<char>, i: int) -> int
    decreases s.len() - i,
{
    if 0 <= i && i < s.len() && is_ws(s[i]) {
        skip_ws(s, i + 1)
    } else {
        i
    }
}

/// Consumes the exact token `tok` after any whitespace.
pub open spec fn ws_expect(s: Seq<char>, i: int, tok: Seq<char>) -> Option<int> {
    expect(s, skip_ws(s, i), tok)
}

/// Parses a string token after any whitespace.
pub open spec fn ws_jstring(s: Seq<char>, i: int) -> Option<(Seq<char>, int)> {
    parse_jstring(s, skip_ws(s, i))
}

/// Parses an integer token after any whitespace.
pub open spec fn ws_u32(s: Seq<char>, i: int) -> Option<(u32, int)> {
    parse_u32_at(s, skip_ws(s, i))
}

/// Consumes one member name and its colon: the quoted key, spelled plainly,
/// then `:`, with whitespace allowed around both.
pub open spec fn member_key(s: Seq<char>, i: int, key: Seq<char>) -> Option<int> {
    match ws_expect(s, i, key) {
        None => None,
        Some(j) => ws_expect(s, j, ":"@),
    }
}

// ---------------------------------------------------------------------------
// The response schema
// ---------------------------------------------------------------------------

/// Parses one message object (`role`, then `content`) at position `i`.
pub open spec fn parse_message_value(s: Seq<char>, i: int) -> Option<(ChatMessageV, int)> {
    match ws_expect(s, i, "{"@) {
        None => None,
        Some(a1) => match member_key(s, a1, "\"role\""@) {
            None => None,
            Some(a2) => match ws_jstring(s, a2) {
                None => None,
                Some((role, a3)) => match ws_expect(s, a3, ","@) {
                    None => None,
                    Some(a4) => match member_key(s, a4, "\"content\""@) {
                        None => None,
                        Some(a5) => match ws_jstring(s, a5) {
                            None => None,
                            Some((content, a6)) => match ws_expect(s, a6, "}"@) {
                                None => None,
                                Some(a7) => Some((ChatMessageV { role, content }, a7)),
                            },
                        },
                    },
                },
            },
        },
    }
}

/// Parses the usage object at position `i`. A usage whose `total_tokens` is
/// not the sum of `prompt_tokens` and `completion_tokens` is a mismatch: it
/// is rejected here rather than passed on.
pub open spec fn parse_usage_at(s: Seq<char>, i: int) -> Option<(UsageStats, int)> {
    match ws_expect(s, i, "{"@) {
        None => None,
        Some(a1) => match member_key(s, a1, "\"prompt_tokens\""@) {
            None => None,
            Some(a2) => match ws_u32(s, a2) {
                None => None,
                Some((p, a3)) => match ws_expect(s, a3, ","@) {
                    None => None,
                    Some(a4) => match member_key(s, a4, "\"completion_tokens\""@) {
                        None => None,
                        Some(a5) => match ws_u32(s, a5) {
                            None => None,
                            Some((c, a6)) => match ws_expect(s, a6, ","@) {
                                None => None,
                                Some(a7) => match member_key(s, a7, "\"total_tokens\""@) {
                                    None => None,
                                    Some(a8) => match ws_u32(s, a8) {
                                        None => None,
                                        Some((t, a9)) => match ws_expect(s, a9, "}"@) {
                                            None => None,
                                            Some(a10) => {
                                                let u = UsageStats {
                                                    prompt_tokens: p,
                                                    completion_tokens: c,
                                                    total_tokens: t,
                                                };
                                                if u.consistent() {
                                                    Some((u, a10))
                                                } else {
                                                    None
                                                }
                                            },
                                        },
                                    },
                                },
                            },
                        },
                    },
                },
            },
        },
    }
}

/// Parses one choice object at position `i`.
pub open spec fn parse_choice_at(s: Seq<char>, i: int) -> Option<(ChoiceResultV, int)> {
    match ws_expect(s, i, "{"@) {
        None => None,
        Some(a1) => match member_key(s, a1, "\"message\""@) {
            None => None,
            Some(a2) => match parse_message_value(s, a2) {
                None => None,
                Some((m, a3)) => match ws_expect(s, a3, ","@) {
                    None => None,
                    Some(a4) => match member_key(s, a4, "\"finish_reason\""@) {
                        None => None,
                        Some(a5) => match ws_jstring(s, a5) {
                            None => None,
                            Some((f, a6)) => match ws_expect(s, a6, ","@) {
                                None => None,
                                Some(a7) => match member_key(s, a7, "\"index\""@) {
                                    None => None,
                                    Some(a8) => match ws_u32(s, a8) {
                                        None => None,
                                        Some((x, a9)) => match ws_expect(s, a9, "}"@) {
                                            None => None,
                                            Some(a10) => Some((
                                                ChoiceResultV {
                                                    message: m,
                                                    finish_reason: f,
                                                    index: x,
                                                },
                                                a10,
                                            )),
                                        },
                                    },
                                },
                            },
                        },
                    },
                },
            },
        },
    }
}

/// Parses one or more comma-separated choice objects starting at `i`.
pub open spec fn parse_choices_rec(s: Seq<char>, i: int) -> Option<(Seq<ChoiceResultV>, int)>
    decreases s.len() - i,
{
    match parse_choice_at(s, i) {
        None => None,
        Some((c, j)) => {
            let k = skip_ws(s, j);
            if i < k && k < s.len() && s[k] == ',' {
                match parse_choices_rec(s, k + 1) {
                    None => None,
                    Some((cs, e)) => Some((seq![c] + cs, e)),
                }
            } else {
                Some((seq![c], j))
            }
        },
    }
}

/// Parses the members of the `choices` array from position `i` up to and
/// including the closing bracket.
pub open spec fn parse_choice_list(s: Seq<char>, i: int) -> Option<(Seq<ChoiceResultV>, int)> {
    let k = skip_ws(s, i);
    if 0 <= k && k < s.len() && s[k] == ']' {
        Some((Seq::empty(), k + 1))
    } else {
        match parse_choices_rec(s, i) {
            None => None,
            Some((cs, j)) => match ws_expect(s, j, "]"@) {
                None => None,
                Some(e) => Some((cs, e)),
            },
        }
    }
}

/// Parses a complete response body, demanding that nothing but whitespace
/// follow it. Every member of the schema, the `choices` list included, must
/// be present; a response that omits one does not parse.
pub open spec fn parse_response(s: Seq<char>) -> Option<ApiResponseV> {
    match ws_expect(s, 0, "{"@) {
        None => None,
        Some(a1) => match member_key(s, a1, "\"id\""@) {
            None => None,
            Some(a2) => match ws_jstring(s, a2) {
                None => None,
                Some((id, a3)) => match ws_expect(s, a3, ","@) {
                    None => None,
                    Some(a4) => match member_key(s, a4, "\"object\""@) {
                        None => None,
                        Some(a5) => match ws_jstring(s, a5) {
                            None => None,
                            Some((object, a6)) => match ws_expect(s, a6, ","@) {
                                None => None,
                                Some(a7) => match member_key(s, a7, "\"model\""@) {
                                    None => None,
                                    Some(a8) => match ws_jstring(s, a8) {
                                        None => None,
                                        Some((model, a9)) => match ws_expect(s, a9, ","@) {
                                            None => None,
                                            Some(a10) => match member_key(s, a10, "\"usage\""@) {
                                                None => None,
                                                Some(a11) => match parse_usage_at(s, a11) {
                                                    None => None,
                                                    Some((usage, a12)) => match ws_expect(
                                                        s,
                                                        a12,
                                                        ","@,
                                                    ) {
                                                        None => None,
                                                        Some(a13) => match member_key(
                                                            s,
                                                            a13,
                                                            "\"choices\""@,
                                                        ) {
                                                            None => None,
                                                            Some(a14) => match ws_expect(
                                                                s,
                                                                a14,
                                                                "["@,
                                                            ) {
                                                                None => None,
                                                                Some(a15) => match parse_choice_list(
                                                                    s,
                                                                    a15,
                                                                ) {
                                                                    None => None,
                                                                    Some((choices, a16)) => match ws_expect(
                                                                        s,
                                                                        a16,
                                                                        "}"@,
                                                                    ) {
                                                                        None => None,
                                                                        Some(a17) => if skip_ws(
                                                                            s,
                                                                            a17,
                                                                        ) == s.len() {
                                                                            Some(ApiResponseV {
                                                                                id,
                                                                                object,
                                                                                model,
                                                                                usage,
                                                                                choices,
                                                                            })
                                                                        } else {
                                                                            None
                                                                        },
                                                                    },
                                                                },
                                                            },
                                                        },
                                                    },
                                                },
                                            },
                                        },
                                    },
                                },
                            },
                        },
                    },
                },
            },
        },
    }
}

/// Every response the parser accepts has consistent token accounting.
pub proof fn lemma_parse_response_wf(s: Seq<char>)
    ensures
        parse_response(s) matches Some(r) ==> r.wf(),
{
}

/// Parsing is a pure function of the text: two response bodies with the
/// same characters parse to the same value, so parsing the same body twice
/// cannot disagree.
pub proof fn lemma_parse_response_deterministic(s1: Seq<char>, s2: Seq<char>)
    requires
        s1 == s2,
    ensures
        parse_response(s1) == parse_response(s2),
{
}

// ---------------------------------------------------------------------------
// Executable scanners
// ---------------------------------------------------------------------------

fn ws_at(v: &Vec<char>, k: usize) -> (r: bool)
    ensures
        r == (k < v@.len() && is_ws(v@[k as int])),
{
    if k < v.len() {
        let c = v[k];
        c == ' ' || c == '\t' || c == '\n' || c == '\r'
    } else {
        false
    }
}

fn skip_ws_exec(v: &Vec<char>, i: usize) -> (r: usize)
    requires
        i <= v.len(),
    ensures
        r as int == skip_ws(v@, i as int),
        i <= r <= v.len(),
{
    let mut k = i;
    while ws_at(v, k)
        invariant
            i <= k <= v.len(),
            skip_ws(v@, i as int) == skip_ws(v@, k as int),
        decreases v.len() - k,
    {
        k += 1;
    }
    k
}

fn ws_expect_tok(v: &Vec<char>, i: usize, tok: &str) -> (r: Option<usize>)
    requires
        i <= v.len(),
    ensures
        match r {
            Some(j) => ws_expect(v@, i as int, tok@) == Some(j as int) && j <= v.len(),
            None => ws_expect(v@, i as int, tok@) is None,
        },
{
    let k = skip_ws_exec(v, i);
    expect_tok(v, k, tok)
}

fn member_key_tok(v: &Vec<char>, i: usize, key: &str) -> (r: Option<usize>)
    requires
        i <= v.len(),
    ensures
        match r {
            Some(j) => member_key(v@, i as int, key@) == Some(j as int) && j <= v.len(),
            None => member_key(v@, i as int, key@) is None,
        },
{
    let a = match ws_expect_tok(v, i, key) {
        Some(a) => a,
        None => {
            return None;
        },
    };
    ws_expect_tok(v, a, ":")
}

fn ws_scan_jstring(v: &Vec<char>, i: usize) -> (r: Option<(String, usize)>)
    requires
        i <= v.len(),
    ensures
        match r {
            Some((t, j)) => ws_jstring(v@, i as int) == Some((t@, j as int)) && j <= v.len(),
            None => ws_jstring(v@, i as int) is None,
        },
{
    let k = skip_ws_exec(v, i);
    scan_jstring(v, k)
}

fn ws_scan_u32(v: &Vec<char>, i: usize) -> (r: Option<(u32, usize)>)
    requires
        i <= v.len(),
    ensures
        match r {
            Some((x, j)) => ws_u32(v@, i as int) == Some((x, j as int)) && j <= v.len(),
            None => ws_u32(v@, i as int) is None,
        },
{
    let k = skip_ws_exec(v, i);
    scan_u32(v, k)
}

/// Scans one message object at position `i`.
fn scan_message_value(v: &Vec<char>, i: usize) -> (r: Option<(ChatMessage, usize)>)
    requires
        i <= v.len(),
    ensures
        match r {
            Some((m, j)) => parse_message_value(v@, i as int) == Some((m@, j as int)) && j
                <= v.len(),
            None => parse_message_value(v@, i as int) is None,
        },
{
    let a1 = match ws_expect_tok(v, i, "{") {
        Some(a) => a,
        None => {
            return None;
        },
    };
    let a2 = match member_key_tok(v, a1, "\"role\"") {
        Some(a) => a,
        None => {
            return None;
        },
    };
    let (role, a3) = match ws_scan_jstring(v, a2) {
        Some(p) => p,
        None => {
            return None;
        },
    };
    let a4 = match ws_expect_tok(v, a3, ",") {
        Some(a) => a,
        None => {
            return None;
        },
    };
    let a5 = match member_key_tok(v, a4, "\"content\"") {
        Some(a) => a,
        None => {
            return None;
        },
    };
    let (content, a6) = match ws_scan_jstring(v, a5) {
        Some(p) => p,
        None => {
            return None;
        },
    };
    let a7 = match ws_expect_tok(v, a6, "}") {
        Some(a) => a,
        None => {
            return None;
        },
    };
    Some((ChatMessage { role, content }, a7))
}

/// Scans the usage object at position `i`.
fn scan_usage(v: &Vec<char>, i: usize) -> (r: Option<(UsageStats, usize)>)
    requires
        i <= v.len(),
    ensures
        match r {
            Some((u, j)) => parse_usage_at(v@, i as int) == Some((u, j as int)) && j <= v.len(),
            None => parse_usage_at(v@, i as int) is None,
        },
{
    let a1 = match ws_expect_tok(v, i, "{") {
        Some(a) => a,
        None => {
            return None;
        },
    };
    let a2 = match member_key_tok(v, a1, "\"prompt_tokens\"") {
        Some(a) => a,
        None => {
            return None;
        },
    };
    let (p, a3) = match ws_scan_u32(v, a2) {
        Some(x) => x,
        None => {
            return None;
        },
    };
    let a4 = match ws_expect_tok(v, a3, ",") {
        Some(a) => a,
        None => {
            return None;
        },
    };
    let a5 = match member_key_tok(v, a4, "\"completion_tokens\"") {
        Some(a) => a,
        None => {
            return None;
        },
    };
    let (c, a6) = match ws_scan_u32(v, a5) {
        Some(x) => x,
        None => {
            return None;
        },
    };
    let a7 = match ws_expect_tok(v, a6, ",") {
        Some(a) => a,
        None => {
            return None;
        },
    };
    let a8 = match member_key_tok(v, a7, "\"total_tokens\"") {
        Some(a) => a,
        None => {
            return None;
        },
    };
    let (t, a9) = match ws_scan_u32(v, a8) {
        Some(x) => x,
        None => {
            return None;
        },
    };
    let a10 = match ws_expect_tok(v, a9, "}") {
        Some(a) => a,
        None => {
            return None;
        },
    };
    if (p as u64) + (c as u64) == (t as u64) {
        Some((UsageStats { prompt_tokens: p, completion_tokens: c, total_tokens: t }, a10))
    } else {
        None
    }
}

/// Scans one choice object at position `i`.
fn scan_choice(v: &Vec<char>, i: usize) -> (r: Option<(ChoiceResult, usize)>)
    requires
        i <= v.len(),
    ensures
        match r {
            Some((c, j)) => parse_choice_at(v@, i as int) == Some((c@, j as int)) && j <= v.len(),
            None => parse_choice_at(v@, i as int) is None,
        },
{
    let a1 = match ws_expect_tok(v, i, "{") {
        Some(a) => a,
        None => {
            return None;
        },
    };
    let a2 = match member_key_tok(v, a1, "\"message\"") {
        Some(a) => a,
        None => {
            return None;
        },
    };
    let (m, a3) = match scan_message_value(v, a2) {
        Some(x) => x,
        None => {
            return None;
        },
    };
    let a4 = match ws_expect_tok(v, a3, ",") {
        Some(a) => a,
        None => {
            return None;
        },
    };
    let a5 = match member_key_tok(v, a4, "\"finish_reason\"") {
        Some(a) => a,
        None => {
            return None;
        },
    };
    let (f, a6) = match ws_scan_jstring(v, a5) {
        Some(x) => x,
        None => {
            return None;
        },
    };
    let a7 = match ws_expect_tok(v, a6, ",") {
        Some(a) => a,
        None => {
            return None;
        },
    };
    let a8 = match member_key_tok(v, a7, "\"index\"") {
        Some(a) => a,
        None => {
            return None;
        },
    };
    let (x, a9) = match ws_scan_u32(v, a8) {
        Some(x) => x,
        None => {
            return None;
        },
    };
    let a10 = match ws_expect_tok(v, a9, "}") {
        Some(a) => a,
        None => {
            return None;
        },
    };
    Some((ChoiceResult { message: m, finish_reason: f, index: x }, a10))
}

/// Scans the members of the `choices` array from position `i` up to and
/// including the closing bracket.
fn scan_choice_list(v: &Vec<char>, i: usize) -> (r: Option<(Vec<ChoiceResult>, usize)>)
    requires
        i <= v.len(),
    ensures
        match r {
            Some((cs, j)) => parse_choice_list(v@, i as int) == Some((cs.deep_view(), j as int))
                && j <= v.len(),
            None => parse_choice_list(v@, i as int) is None,
        },
{
    let k0 = skip_ws_exec(v, i);
    if k0 < v.len() && v[k0] == ']' {
        let cs: Vec<ChoiceResult> = Vec::new();
        proof {
            assert(cs.deep_view() =~= Seq::<ChoiceResultV>::empty());
        }
        return Some((cs, k0 + 1));
    }
    let mut acc: Vec<ChoiceResult> = Vec::new();
    let mut k: usize = i;
    loop
        invariant
            i <= k <= v.len(),
            !(skip_ws(v@, i as int) < v@.len() && v@[skip_ws(v@, i as int)] == ']'),
            parse_choices_rec(v@, i as int) == (match parse_choices_rec(v@, k as int) {
                Some((cs, j)) => Some((acc.deep_view() + cs, j)),
                None => None,
            }),
        decreases v.len() - k,
    {
        let (c, j) = match scan_choice(v, k) {
            Some(p) => p,
            None => {
                return None;
            },
        };
        let kk = skip_ws_exec(v, j);
        let ghost acc0 = acc.deep_view();
        if kk > k && kk < v.len() && v[kk] == ',' {
            acc.push(c);
            proof {
                assert(acc.deep_view() =~= acc0.push(c@));
                if let Some((cs, e)) = parse_choices_rec(v@, kk + 1) {
                    assert(acc0 + (seq![c@] + cs) =~= acc.deep_view() + cs);
                }
            }
            k = kk + 1;
        } else {
            acc.push(c);
            proof {
                assert(parse_choices_rec(v@, k as int) == Some((seq![c@], j as int)));
                assert(acc0 + seq![c@] =~= acc.deep_view());
            }
            let e = match ws_expect_tok(v, j, "]") {
                Some(x) => x,
                None => {
                    return None;
                },
            };
            return Some((acc, e));
        }
    }
}

/// Parses JSON text into a response; `None` when the text does not match
/// the response schema, a member is missing, or the token accounting does
/// not add up.
pub fn decode_response(s: &str) -> (r: Option<ApiResponse>)
    ensures
        match r {
            Some(a) => parse_response(s@) == Some(a@) && a@.wf(),
            None => parse_response(s@) is None,
        },
{
    let v = chars_of(s);
    let a1 = match ws_expect_tok(&v, 0, "{") {
        Some(a) => a,
        None => {
            return None;
        },
    };
    let a2 = match member_key_tok(&v, a1, "\"id\"") {
        Some(a) => a,
        None => {
            return None;
        },
    };
    let (id, a3) = match ws_scan_jstring(&v, a2) {
        Some(x) => x,
        None => {
            return None;
        },
    };
    let a4 = match ws_expect_tok(&v, a3, ",") {
        Some(a) => a,
        None => {
            return None;
        },
    };
    let a5 = match member_key_tok(&v, a4, "\"object\"") {
        Some(a) => a,
        None => {
            return None;
        },
    };
    let (object, a6) = match ws_scan_jstring(&v, a5) {
        Some(x) => x,
        None => {
            return None;
        },
    };
    let a7 = match ws_expect_tok(&v, a6, ",") {
        Some(a) => a,
        None => {
            return None;
        },
    };
    let a8 = match member_key_tok(&v, a7, "\"model\"") {
        Some(a) => a,
        None => {
            return None;
        },
    };
    let (model, a9) = match ws_scan_jstring(&v, a8) {
        Some(x) => x,
        None => {
            return None;
        },
    };
    let a10 = match ws_expect_tok(&v, a9, ",") {
        Some(a) => a,
        None => {
            return None;
        },
    };
    let a11 = match member_key_tok(&v, a10, "\"usage\"") {
        Some(a) => a,
        None => {
            return None;
        },
    };
    let (usage, a12) = match scan_usage(&v, a11) {
        Some(x) => x,
        None => {
            return None;
        },
    };
    let a13 = match ws_expect_tok(&v, a12, ",") {
        Some(a) => a,
        None => {
            return None;
        },
    };
    let a14 = match member_key_tok(&v, a13, "\"choices\"") {
        Some(a) => a,
        None => {
            return None;
        },
    };
    let a15 = match ws_expect_tok(&v, a14, "[") {
        Some(a) => a,
        None => {
            return None;
        },
    };
    let (choices, a16) = match scan_choice_list(&v, a15) {
        Some(x) => x,
        None => {
            return None;
        },
    };
    let a17 = match ws_expect_tok(&v, a16, "}") {
        Some(a) => a,
        None => {
            return None;
        },
    };
    if skip_ws_exec(&v, a17) == v.len() {
        Some(ApiResponse { id, object, model, usage, choices })
    } else {
        None
    }
}

} // verus!
