//! The outbound side of the exchange: building the request body for one
//! question and writing it as JSON, together with a parser for the same
//! schema so that what was written can be read back.

use vstd::prelude::*;
use crate::json::{
    jstr, escaped, esc_char, expect, parse_jstring, parse_jchars, is_hex_digit, hex_val,
    hex_digit_char, append_jstring, expect_tok, scan_jstring,
};
use crate::model::{ChatMessage, ChatMessageV, RequestBody, RequestBodyV};
use crate::text::chars_of;

verus! {

/// The fixed model identifier sent with every request.
pub open spec fn spec_default_model() -> Seq<char> {
    "gpt-3.5-turbo"@
}

/// The fixed model identifier sent with every request.
pub fn default_model() -> (r: String)
    ensures
        r@ == spec_default_model(),
{
    String::from_str("gpt-3.5-turbo")
}

/// The request body for one question: the fixed model identifier and a
/// single message of role `user` whose content is the question, which may
/// be empty.
pub fn build_request_body(question: String) -> (b: RequestBody)
    ensures
        b@.model == spec_default_model(),
        b@.messages.len() == 1,
        b@.messages[0].role == "user"@,
        b@.messages[0].content == question@,
        b@.wf(),
{
    let msg = ChatMessage::user(question);
    let mut messages: Vec<ChatMessage> = Vec::new();
    messages.push(msg);
    RequestBody { model: default_model(), messages }
}

// ---------------------------------------------------------------------------
// Writing the request schema
// ---------------------------------------------------------------------------

/// The JSON object for one message.
pub open spec fn msg_json(m: ChatMessageV) -> Seq<char> {
    "{\"role\":"@ + jstr(m.role) + ",\"content\":"@ + jstr(m.content) + "}"@
}

/// The comma-separated JSON objects for a sequence of messages.
pub open spec fn msgs_json(ms: Seq<ChatMessageV>) -> Seq<char>
    decreases ms.len(),
{
    if ms.len() == 0 {
        Seq::empty()
    } else if ms.len() == 1 {
        msg_json(ms[0])
    } else {
        msgs_json(ms.drop_last()) + seq![','] + msg_json(ms.last())
    }
}

/// The complete JSON text of a request body.
pub open spec fn body_json(b: RequestBodyV) -> Seq<char> {
    "{\"model\":"@ + jstr(b.model) + ",\"messages\":["@ + msgs_json(b.messages) + "]}"@
}

/// Serializes a request body to its JSON text.
pub fn render_request_body(b: &RequestBody) -> (s: String)
    ensures
        s@ == body_json(b@),
{
    let mut out = String::from_str("{\"model\":");
    append_jstring(&mut out, b.model.as_str());
    out.append(",\"messages\":[");
    let n = b.messages.len();
    let mut i: usize = 0;
    while i < n
        invariant
            i <= n,
            n == b.messages.len(),
            out@ == "{\"model\":"@ + jstr(b@.model) + ",\"messages\":["@
                + msgs_json(b@.messages.subrange(0, i as int)),
        decreases n - i,
    {
        let ghost o0 = out@;
        if i > 0 {
            out.append(",");
        }
        out.append("{\"role\":");
        append_jstring(&mut out, b.messages[i].role.as_str());
        out.append(",\"content\":");
        append_jstring(&mut out, b.messages[i].content.as_str());
        out.append("}");
        proof {
            let pre = b@.messages.subrange(0, i as int);
            let cur = b@.messages.subrange(0, i + 1);
            assert(b.messages@[i as int].deep_view() == b@.messages[i as int]);
            assert(cur.drop_last() =~= pre);
            assert(cur.last() == b@.messages[i as int]);
            if i > 0 {
                reveal_strlit(",");
                assert(","@ =~= seq![',']);
                assert(out@ =~= o0 + seq![','] + msg_json(b@.messages[i as int]));
                assert(msgs_json(cur) == msgs_json(pre) + seq![','] + msg_json(cur.last()));
            } else {
                assert(out@ =~= o0 + msg_json(b@.messages[i as int]));
                assert(msgs_json(cur) == msg_json(cur.last()));
            }
            assert(out@ =~= "{\"model\":"@ + jstr(b@.model) + ",\"messages\":["@
                + msgs_json(cur));
        }
        i += 1;
    }
    out.append("]}");
    proof {
        assert(b@.messages.subrange(0, n as int) =~= b@.messages);
        assert(out@ =~= body_json(b@));
    }
    out
}

// ---------------------------------------------------------------------------
// Reading the request schema back
// ---------------------------------------------------------------------------

/// Parses one message object at position `i`.
pub open spec fn parse_message_at(s: Seq<char>, i: int) -> Option<(ChatMessageV, int)> {
    match expect(s, i, "{\"role\":"@) {
        None => None,
        Some(j1) => match parse_jstring(s, j1) {
            None => None,
            Some((role, j2)) => match expect(s, j2, ",\"content\":"@) {
                None => None,
                Some(j3) => match parse_jstring(s, j3) {
                    None => None,
                    Some((content, j4)) => match expect(s, j4, "}"@) {
                        None => None,
                        Some(j5) => Some((ChatMessageV { role, content }, j5)),
                    },
                },
            },
        },
    }
}

/// Parses one or more comma-separated message objects starting at `i`.
pub open spec fn parse_messages_rec(s: Seq<char>, i: int) -> Option<(Seq<ChatMessageV>, int)>
    decreases s.len() - i,
{
    match parse_message_at(s, i) {
        None => None,
        Some((m, j)) => if i < j && j < s.len() && s[j] == ',' {
            match parse_messages_rec(s, j + 1) {
                None => None,
                Some((ms, k)) => Some((seq![m] + ms, k)),
            }
        } else {
            Some((seq![m], j))
        },
    }
}

/// Parses the members of the `messages` array from position `i` up to and
/// including the closing bracket.
pub open spec fn parse_message_list(s: Seq<char>, i: int) -> Option<(Seq<ChatMessageV>, int)> {
    if 0 <= i && i < s.len() && s[i] == ']' {
        Some((Seq::empty(), i + 1))
    } else {
        match parse_messages_rec(s, i) {
            None => None,
            Some((ms, j)) => match expect(s, j, "]"@) {
                None => None,
                Some(k) => Some((ms, k)),
            },
        }
    }
}

/// Parses a complete request body, demanding that the text hold nothing
/// else.
pub open spec fn parse_request_body(s: Seq<char>) -> Option<RequestBodyV> {
    match expect(s, 0, "{\"model\":"@) {
        None => None,
        Some(j1) => match parse_jstring(s, j1) {
            None => None,
            Some((model, j2)) => match expect(s, j2, ",\"messages\":["@) {
                None => None,
                Some(j3) => match parse_message_list(s, j3) {
                    None => None,
                    Some((ms, j4)) => match expect(s, j4, "}"@) {
                        None => None,
                        Some(j5) => if j5 == s.len() {
                            Some(RequestBodyV { model, messages: ms })
                        } else {
                            None
                        },
                    },
                },
            },
        },
    }
}

/// Scans one message object at position `i`.
pub(crate) fn scan_message(v: &Vec<char>, i: usize) -> (r: Option<(ChatMessage, usize)>)
    ensures
        match r {
            Some((m, j)) => parse_message_at(v@, i as int) == Some((m@, j as int)) && j <= v.len(),
            None => parse_message_at(v@, i as int) is None,
        },
{
    let j1 = match expect_tok(v, i, "{\"role\":") {
        Some(j) => j,
        None => {
            return None;
        },
    };
    let (role, j2) = match scan_jstring(v, j1) {
        Some(p) => p,
        None => {
            return None;
        },
    };
    let j3 = match expect_tok(v, j2, ",\"content\":") {
        Some(j) => j,
        None => {
            return None;
        },
    };
    let (content, j4) = match scan_jstring(v, j3) {
        Some(p) => p,
        None => {
            return None;
        },
    };
    let j5 = match expect_tok(v, j4, "}") {
        Some(j) => j,
        None => {
            return None;
        },
    };
    Some((ChatMessage { role, content }, j5))
}

/// Scans the members of the `messages` array from position `i` up to and
/// including the closing bracket.
pub(crate) fn scan_message_list(v: &Vec<char>, i: usize) -> (r: Option<(Vec<ChatMessage>, usize)>)
    ensures
        match r {
            Some((ms, j)) => parse_message_list(v@, i as int) == Some((ms.deep_view(), j as int))
                && j <= v.len(),
            None => parse_message_list(v@, i as int) is None,
        },
{
    if i < v.len() && v[i] == ']' {
        let ms: Vec<ChatMessage> = Vec::new();
        proof {
            assert(ms.deep_view() =~= Seq::<ChatMessageV>::empty());
        }
        return Some((ms, i + 1));
    }
    if i > v.len() {
        return None;
    }
    let mut acc: Vec<ChatMessage> = Vec::new();
    let mut k: usize = i;
    loop
        invariant
            i <= k <= v.len(),
            !(0 <= i < v@.len() && v@[i as int] == ']'),
            parse_messages_rec(v@, i as int) == (match parse_messages_rec(v@, k as int) {
                Some((ms, j)) => Some((acc.deep_view() + ms, j)),
                None => None,
            }),
        decreases v.len() - k,
    {
        let (m, j) = match scan_message(v, k) {
            Some(p) => p,
            None => {
                return None;
            },
        };
        let ghost acc0 = acc.deep_view();
        if j > k && j < v.len() && v[j] == ',' {
            acc.push(m);
            proof {
                assert(acc.deep_view() =~= acc0.push(m@));
                if let Some((ms, e)) = parse_messages_rec(v@, j + 1) {
                    assert(acc0 + (seq![m@] + ms) =~= acc.deep_view() + ms);
                }
            }
            k = j + 1;
        } else {
            acc.push(m);
            proof {
                assert(parse_messages_rec(v@, k as int) == Some((seq![m@], j as int)));
                assert(acc0 + seq![m@] =~= acc.deep_view());
            }
            let jj = match expect_tok(v, j, "]") {
                Some(x) => x,
                None => {
                    return None;
                },
            };
            return Some((acc, jj));
        }
    }
}

/// Parses JSON text into a request body; `None` when the text does not
/// match the request schema exactly.
pub fn decode_request_body(s: &str) -> (r: Option<RequestBody>)
    ensures
        match r {
            Some(b) => parse_request_body(s@) == Some(b@),
            None => parse_request_body(s@) is None,
        },
{
    let v = chars_of(s);
    let j1 = match expect_tok(&v, 0, "{\"model\":") {
        Some(j) => j,
        None => {
            return None;
        },
    };
    let (model, j2) = match scan_jstring(&v, j1) {
        Some(p) => p,
        None => {
            return None;
        },
    };
    let j3 = match expect_tok(&v, j2, ",\"messages\":[") {
        Some(j) => j,
        None => {
            return None;
        },
    };
    let (messages, j4) = match scan_message_list(&v, j3) {
        Some(p) => p,
        None => {
            return None;
        },
    };
    let j5 = match expect_tok(&v, j4, "}") {
        Some(j) => j,
        None => {
            return None;
        },
    };
    if j5 == v.len() {
        Some(RequestBody { model, messages })
    } else {
        None
    }
}

// ---------------------------------------------------------------------------
// The round trip: what the serializer writes, the parser reads back
// ---------------------------------------------------------------------------

proof fn lemma_hex_digit_char_val(n: nat)
    requires
        n < 16,
    ensures
        is_hex_digit(hex_digit_char(n)),
        hex_val(hex_digit_char(n)) == n,
{
}

proof fn lemma_escaped_first(t: Seq<char>)
    requires
        t.len() > 0,
    ensures
        escaped(t) == esc_char(t[0]) + escaped(t.drop_first()),
    decreases t.len(),
{
    if t.len() == 1 {
        assert(t.drop_last() =~= Seq::<char>::empty());
        assert(t.drop_first() =~= Seq::<char>::empty());
        assert(escaped(t) =~= esc_char(t[0]) + escaped(t.drop_first()));
    } else {
        let u = t.drop_last();
        lemma_escaped_first(u);
        assert(u[0] == t[0]);
        assert(u.drop_first() =~= t.drop_first().drop_last());
        assert(t.drop_first().last() == t.last());
        assert(escaped(t.drop_first()) == escaped(t.drop_first().drop_last())
            + esc_char(t.drop_first().last()));
        assert(escaped(t) =~= esc_char(t[0]) + escaped(t.drop_first()));
    }
}

proof fn lemma_parse_escaped(s: Seq<char>, i: int, t: Seq<char>)
    requires
        0 <= i,
        i + escaped(t).len() + 1 <= s.len(),
        s.subrange(i, i + escaped(t).len() + 1) == escaped(t) + seq!['"'],
    ensures
        parse_jchars(s, i) == Some((t, i + escaped(t).len() + 1)),
    decreases t.len(),
{
    let et = escaped(t);
    let sub = s.subrange(i, i + et.len() + 1);
    assert(forall|k: int| i <= k < i + et.len() + 1 ==> #[trigger] s[k] == sub[k - i]);
    if t.len() == 0 {
        assert(s[i] == '"');
        assert(t =~= Seq::<char>::empty());
    } else {
        lemma_escaped_first(t);
        let c = t[0];
        let ec = esc_char(c);
        let tp = t.drop_first();
        let ep = escaped(tp);
        let d = ec.len() as int;
        assert(s.subrange(i + d, i + d + ep.len() + 1) =~= ep + seq!['"']);
        lemma_parse_escaped(s, i + d, tp);
        assert(seq![c] + tp =~= t);
        if c == '"' {
            assert(s[i] == '\\' && s[i + 1] == '"');
        } else if c == '\\' {
            assert(s[i] == '\\' && s[i + 1] == '\\');
        } else if (c as u32) < 0x20 {
            let hi = ((c as u32) / 16) as nat;
            let lo = ((c as u32) % 16) as nat;
            assert(s[i] == '\\' && s[i + 1] == 'u' && s[i + 2] == '0' && s[i + 3] == '0');
            assert(s[i + 4] == hex_digit_char(hi) && s[i + 5] == hex_digit_char(lo));
            lemma_hex_digit_char_val(hi);
            lemma_hex_digit_char_val(lo);
            assert(is_hex_digit('0') && hex_val('0') == 0);
            let v = (hex_val(s[i + 2]) * 4096 + hex_val(s[i + 3]) * 256 + hex_val(s[i + 4]) * 16
                + hex_val(s[i + 5])) as u32;
            assert(v == c as u32);
            assert(vstd::utf8::is_scalar(v));
            vstd::utf8::char_u32_cast(c, v);
            assert(parse_jchars(s, i) == Some((seq![c] + tp, i + d + ep.len() + 1)));
        } else {
            assert(s[i] == c);
        }
    }
}

proof fn lemma_parse_jstr(s: Seq<char>, i: int, t: Seq<char>)
    requires
        0 <= i,
        i + jstr(t).len() <= s.len(),
        s.subrange(i, i + jstr(t).len()) == jstr(t),
    ensures
        parse_jstring(s, i) == Some((t, i + jstr(t).len())),
{
    let jt = jstr(t);
    let sub = s.subrange(i, i + jt.len());
    assert(forall|k: int| i <= k < i + jt.len() ==> #[trigger] s[k] == sub[k - i]);
    assert(s[i] == '"');
    assert(s.subrange(i + 1, i + 1 + escaped(t).len() + 1) =~= escaped(t) + seq!['"']);
    lemma_parse_escaped(s, i + 1, t);
}

proof fn lemma_parse_message(s: Seq<char>, i: int, m: ChatMessageV)
    requires
        0 <= i,
        i + msg_json(m).len() <= s.len(),
        s.subrange(i, i + msg_json(m).len()) == msg_json(m),
    ensures
        parse_message_at(s, i) == Some((m, i + msg_json(m).len())),
{
    let l1 = "{\"role\":"@;
    let jr = jstr(m.role);
    let l2 = ",\"content\":"@;
    let jc = jstr(m.content);
    let l3 = "}"@;
    let mj = msg_json(m);
    let sub = s.subrange(i, i + mj.len());
    assert(forall|k: int| i <= k < i + mj.len() ==> #[trigger] s[k] == sub[k - i]);
    let p1 = i + l1.len();
    let p2 = p1 + jr.len();
    let p3 = p2 + l2.len();
    let p4 = p3 + jc.len();
    let p5 = p4 + l3.len();
    assert(s.subrange(i, p1) =~= l1);
    assert(s.subrange(p1, p2) =~= jr);
    lemma_parse_jstr(s, p1, m.role);
    assert(s.subrange(p2, p3) =~= l2);
    assert(s.subrange(p3, p4) =~= jc);
    lemma_parse_jstr(s, p3, m.content);
    assert(s.subrange(p4, p5) =~= l3);
    assert(expect(s, p4, l3) == Some(p5));
    assert(ChatMessageV { role: m.role, content: m.content } == m);
}

#[verifier::rlimit(50)]
proof fn lemma_msgs_json_first(ms: Seq<ChatMessageV>)
    requires
        ms.len() >= 1,
    ensures
        ms.len() == 1 ==> msgs_json(ms) == msg_json(ms[0]),
        ms.len() > 1 ==> msgs_json(ms) == msg_json(ms[0]) + seq![','] + msgs_json(ms.drop_first()),
    decreases ms.len(),
{
    if ms.len() == 1 {
    } else if ms.len() == 2 {
        let u = ms.drop_last();
        let w = ms.drop_first();
        assert(u.len() == 1 && w.len() == 1);
        assert(u[0] == ms[0]);
        assert(w[0] == ms.last());
        assert(msgs_json(u) == msg_json(ms[0]));
        assert(msgs_json(w) == msg_json(ms.last()));
        assert(msgs_json(ms) == msgs_json(u) + seq![','] + msg_json(ms.last()));
        assert(msg_json(ms[0]) + seq![','] + msgs_json(w) =~= msgs_json(ms));
    } else {
        let u = ms.drop_last();
        let w = ms.drop_first();
        lemma_msgs_json_first(u);
        assert(u[0] == ms[0]);
        assert(u.len() > 1);
        assert(msgs_json(u) == msg_json(ms[0]) + seq![','] + msgs_json(u.drop_first()));
        assert(msgs_json(ms) == msgs_json(u) + seq![','] + msg_json(ms.last()));
        assert(w.drop_last() =~= u.drop_first());
        assert(w.last() == ms.last());
        assert(w.len() > 1);
        assert(msgs_json(w) == msgs_json(w.drop_last()) + seq![','] + msg_json(w.last()));
        assert(msgs_json(w) == msgs_json(u.drop_first()) + seq![','] + msg_json(ms.last()));
        assert(msgs_json(ms) =~= msg_json(ms[0]) + seq![','] + msgs_json(w));
    }
}

proof fn lemma_parse_messages(s: Seq<char>, i: int, ms: Seq<ChatMessageV>)
    requires
        ms.len() >= 1,
        0 <= i,
        i + msgs_json(ms).len() < s.len(),
        s.subrange(i, i + msgs_json(ms).len()) == msgs_json(ms),
        s[i + msgs_json(ms).len()] == ']',
    ensures
        parse_messages_rec(s, i) == Some((ms, i + msgs_json(ms).len())),
    decreases ms.len(),
{
    lemma_msgs_json_first(ms);
    let whole = msgs_json(ms);
    let sub = s.subrange(i, i + whole.len());
    assert(forall|k: int| i <= k < i + whole.len() ==> #[trigger] s[k] == sub[k - i]);
    let m0 = ms[0];
    let mj = msg_json(m0);
    let j = i + mj.len();
    assert(mj.len() >= 2);
    assert(s.subrange(i, j) =~= mj);
    lemma_parse_message(s, i, m0);
    if ms.len() == 1 {
        assert(s[j] == ']');
        assert(seq![m0] =~= ms);
    } else {
        let rest = ms.drop_first();
        let rj = msgs_json(rest);
        assert(whole == mj + seq![','] + rj);
        assert(s[j] == ',');
        assert(s.subrange(j + 1, j + 1 + rj.len()) =~= rj);
        assert(s[j + 1 + rj.len()] == ']');
        lemma_parse_messages(s, j + 1, rest);
        assert(seq![m0] + rest =~= ms);
    }
}

/// The round trip of the request schema: serializing any request body and
/// parsing the text back with the same schema yields the same body, field
/// for field.
pub proof fn lemma_request_roundtrip(b: RequestBodyV)
    ensures
        parse_request_body(body_json(b)) == Some(b),
{
    let l1 = "{\"model\":"@;
    let jm = jstr(b.model);
    let l2 = ",\"messages\":["@;
    let mj = msgs_json(b.messages);
    let l3 = "]}"@;
    let s = body_json(b);
    reveal_strlit("]}");
    reveal_strlit("]");
    reveal_strlit("}");
    reveal_strlit("{\"role\":");
    assert(l3.len() == 2 && l3[0] == ']' && l3[1] == '}');
    assert("]"@ =~= seq![']']);
    assert("}"@ =~= seq!['}']);
    let p1 = l1.len() as int;
    let p2 = p1 + jm.len();
    let p3 = p2 + l2.len();
    let p4 = p3 + mj.len();
    assert(s.len() == p4 + 2);
    assert(s.subrange(0, p1) =~= l1);
    assert(s.subrange(p1, p2) =~= jm);
    lemma_parse_jstr(s, p1, b.model);
    assert(s.subrange(p2, p3) =~= l2);
    if b.messages.len() == 0 {
        assert(mj.len() == 0);
        assert(s[p3] == ']');
        assert(s.subrange(p3 + 1, p3 + 2) =~= "}"@);
        assert(b.messages =~= Seq::<ChatMessageV>::empty());
    } else {
        lemma_msgs_json_first(b.messages);
        assert(mj[0] == msg_json(b.messages[0])[0]);
        assert(mj[0] == '{');
        assert(s[p3] == '{');
        assert(s.subrange(p3, p4) =~= mj);
        assert(s[p4] == ']');
        lemma_parse_messages(s, p3, b.messages);
        assert(s.subrange(p4, p4 + 1) =~= "]"@);
        assert(s.subrange(p4 + 1, p4 + 2) =~= "}"@);
    }
    assert(RequestBodyV { model: b.model, messages: b.messages } == b);
}

} // verus!
