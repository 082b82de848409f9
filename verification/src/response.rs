//! The outbound reply payload: its kinds, its constructors, its JSON form
//! as a tree and as text, and the proof that reading the tree back yields
//! the payload it was built from.

use vstd::prelude::*;
use vstd::string::*;
use crate::json::{Json, spec_obj_get, obj_get, str_eq};

verus! {

/// The platform's response-type contract. Only `Pong` (the handshake
/// acknowledgement) and `ChannelMessageWithSource` are produced by this
/// library; the rest exist for protocol completeness.
#[derive(Debug, Clone, Copy, PartialEq, Eq)]
pub enum InteractionResponseType {
    Pong,
    Acknowledge,
    ChannelMessage,
    ChannelMessageWithSource,
    ACKWithSource,
}

/// The message part of a reply: a text-to-speech flag and the content.
#[derive(Debug, Clone, PartialEq, Eq)]
pub struct InteractionApplicationCommandCallbackData {
    pub tts: bool,
    pub content: String,
}

/// A reply payload. The bare handshake acknowledgement carries no message
/// data; every other reply this library produces carries some.
#[derive(Debug, Clone, PartialEq, Eq)]
pub struct InteractionResponse {
    pub ir_type: InteractionResponseType,
    pub data: Option<InteractionApplicationCommandCallbackData>,
}

/// The wire code as its decimal token.
pub open spec fn spec_code_token(t: InteractionResponseType) -> Seq<char> {
    match t {
        InteractionResponseType::Pong => "1"@,
        InteractionResponseType::Acknowledge => "2"@,
        InteractionResponseType::ChannelMessage => "3"@,
        InteractionResponseType::ChannelMessageWithSource => "4"@,
        InteractionResponseType::ACKWithSource => "5"@,
    }
}

/// The response type denoted by a decimal token, if any.
pub open spec fn spec_type_of_token(s: Seq<char>) -> Option<InteractionResponseType> {
    if s == "1"@ {
        Some(InteractionResponseType::Pong)
    } else if s == "2"@ {
        Some(InteractionResponseType::Acknowledge)
    } else if s == "3"@ {
        Some(InteractionResponseType::ChannelMessage)
    } else if s == "4"@ {
        Some(InteractionResponseType::ChannelMessageWithSource)
    } else if s == "5"@ {
        Some(InteractionResponseType::ACKWithSource)
    } else {
        None
    }
}

/// A reply of the given type carrying `content`, never spoken aloud.
pub fn reply_with(ir_type: InteractionResponseType, content: String) -> (r: InteractionResponse)
    ensures
        r == (InteractionResponse {
            ir_type,
            data: Some(InteractionApplicationCommandCallbackData { tts: false, content }),
        }),
{
    InteractionResponse {
        ir_type,
        data: Some(InteractionApplicationCommandCallbackData { tts: false, content }),
    }
}

/// Whether `r` is the ordinary visible message reply with the given content.
pub open spec fn is_message_reply(r: InteractionResponse, content: Seq<char>) -> bool {
    &&& r.ir_type == InteractionResponseType::ChannelMessageWithSource
    &&& r.data matches Some(d) && d.tts == false && d.content@ == content
}

/// A visible channel message carrying `content`.
pub fn reply(content: &str) -> (r: InteractionResponse)
    ensures
        is_message_reply(r, content@),
{
    reply_with(InteractionResponseType::ChannelMessageWithSource, String::from_str(content))
}

/// The bare handshake acknowledgement: no message data at all.
pub fn pong() -> (r: InteractionResponse)
    ensures
        r == (InteractionResponse { ir_type: InteractionResponseType::Pong, data: None }),
{
    InteractionResponse { ir_type: InteractionResponseType::Pong, data: None }
}

/// Whether `j` is the canonical JSON tree of the reply `r`: a `type` field
/// holding the wire code and a `data` field holding the message or null.
pub open spec fn is_response_tree(j: Json, r: InteractionResponse) -> bool {
    &&& j matches Json::Obj(fields)
    &&& j->Obj_0@.len() == 2
    &&& j->Obj_0@[0].0@ == "type"@
    &&& j->Obj_0@[0].1 matches Json::Num(raw) && raw@ == spec_code_token(r.ir_type)
    &&& j->Obj_0@[1].0@ == "data"@
    &&& match r.data {
        None => j->Obj_0@[1].1 is Null,
        Some(d) => is_data_tree(j->Obj_0@[1].1, d),
    }
}

/// Whether `j` is the canonical JSON tree of the message data `d`.
pub open spec fn is_data_tree(j: Json, d: InteractionApplicationCommandCallbackData) -> bool {
    &&& j matches Json::Obj(g)
    &&& j->Obj_0@.len() == 2
    &&& j->Obj_0@[0].0@ == "tts"@
    &&& j->Obj_0@[0].1 == Json::Bool(d.tts)
    &&& j->Obj_0@[1].0@ == "content"@
    &&& j->Obj_0@[1].1 == Json::Str(d.content)
}

/// Serialize a reply into its canonical JSON tree.
pub fn response_to_json_tree(r: &InteractionResponse) -> (j: Json)
    ensures
        is_response_tree(j, *r),
{
    let code: String = match r.ir_type {
        InteractionResponseType::Pong => String::from_str("1"),
        InteractionResponseType::Acknowledge => String::from_str("2"),
        InteractionResponseType::ChannelMessage => String::from_str("3"),
        InteractionResponseType::ChannelMessageWithSource => String::from_str("4"),
        InteractionResponseType::ACKWithSource => String::from_str("5"),
    };
    let data: Json = match &r.data {
        None => Json::Null,
        Some(d) => {
            let mut g: Vec<(String, Json)> = Vec::new();
            g.push((String::from_str("tts"), Json::Bool(d.tts)));
            g.push((String::from_str("content"), Json::Str(d.content.clone())));
            Json::Obj(g)
        },
    };
    let mut fields: Vec<(String, Json)> = Vec::new();
    fields.push((String::from_str("type"), Json::Num(code)));
    fields.push((String::from_str("data"), data));
    Json::Obj(fields)
}

/// The reply denoted by a JSON tree, if any: a `type` field with a wire
/// code, and a `data` field that is null or a message object.
pub open spec fn spec_response_from_json(j: Json) -> Option<InteractionResponse> {
    match j {
        Json::Obj(fields) => match spec_obj_get(fields@, "type"@) {
            Some(Json::Num(raw)) => match spec_type_of_token(raw@) {
                Some(t) => match spec_obj_get(fields@, "data"@) {
                    Some(Json::Null) => Some(InteractionResponse { ir_type: t, data: None }),
                    Some(Json::Obj(g)) => match (
                        spec_obj_get(g@, "tts"@),
                        spec_obj_get(g@, "content"@),
                    ) {
                        (Some(Json::Bool(b)), Some(Json::Str(s))) => Some(
                            InteractionResponse {
                                ir_type: t,
                                data: Some(
                                    InteractionApplicationCommandCallbackData {
                                        tts: b,
                                        content: s,
                                    },
                                ),
                            },
                        ),
                        _ => None,
                    },
                    _ => None,
                },
                None => None,
            },
            _ => None,
        },
        _ => None,
    }
}

fn response_type_of_token(raw: &str) -> (r: Option<InteractionResponseType>)
    ensures
        r == spec_type_of_token(raw@),
{
    if str_eq(raw, "1") {
        Some(InteractionResponseType::Pong)
    } else if str_eq(raw, "2") {
        Some(InteractionResponseType::Acknowledge)
    } else if str_eq(raw, "3") {
        Some(InteractionResponseType::ChannelMessage)
    } else if str_eq(raw, "4") {
        Some(InteractionResponseType::ChannelMessageWithSource)
    } else if str_eq(raw, "5") {
        Some(InteractionResponseType::ACKWithSource)
    } else {
        None
    }
}

/// Parse a reply out of a JSON tree.
pub fn response_from_json(j: &Json) -> (r: Option<InteractionResponse>)
    ensures
        r == spec_response_from_json(*j),
{
    let fields = match j {
        Json::Obj(fields) => fields,
        _ => { return None; },
    };
    let t = match obj_get(fields, "type") {
        Some(Json::Num(raw)) => match response_type_of_token(raw.as_str()) {
            Some(t) => t,
            None => { return None; },
        },
        _ => { return None; },
    };
    match obj_get(fields, "data") {
        Some(Json::Null) => Some(InteractionResponse { ir_type: t, data: None }),
        Some(Json::Obj(g)) => {
            let b = match obj_get(g, "tts") {
                Some(Json::Bool(b)) => *b,
                _ => { return None; },
            };
            match obj_get(g, "content") {
                Some(Json::Str(s)) => Some(
                    InteractionResponse {
                        ir_type: t,
                        data: Some(
                            InteractionApplicationCommandCallbackData {
                                tts: b,
                                content: s.clone(),
                            },
                        ),
                    },
                ),
                _ => None,
            }
        },
        _ => None,
    }
}

/// Round trip: a reply's canonical JSON tree denotes that reply and no
/// other. Serializing a reply payload and parsing it back yields the same
/// response type and message data.
pub proof fn lemma_response_round_trip(j: Json, r: InteractionResponse)
    requires
        is_response_tree(j, r),
    ensures
        spec_response_from_json(j) == Some(r),
{
    reveal_strlit("1");
    reveal_strlit("2");
    reveal_strlit("3");
    reveal_strlit("4");
    reveal_strlit("5");
    reveal_strlit("type");
    reveal_strlit("data");
    reveal_strlit("tts");
    reveal_strlit("content");
    let fields = j->Obj_0;
    assert("1"@[0] == '1' && "2"@[0] == '2' && "3"@[0] == '3' && "4"@[0] == '4' && "5"@[0]
        == '5');
    assert("type"@[0] != "data"@[0]);
    assert("tts"@.len() != "content"@.len());
    assert(spec_obj_get(fields@, "type"@) == Some(fields@[0].1));
    assert(fields@.skip(1)[0] == fields@[1]);
    assert(fields@.skip(1).len() == 1);
    assert(spec_obj_get(fields@.skip(1), "data"@) == Some(fields@.skip(1)[0].1));
    assert(spec_obj_get(fields@, "data"@) == Some(fields@[1].1));
    match r.data {
        None => {},
        Some(d) => {
            let g = fields@[1].1->Obj_0;
            assert(spec_obj_get(g@, "tts"@) == Some(g@[0].1));
            assert(g@.skip(1)[0] == g@[1]);
            assert(g@.skip(1).len() == 1);
            assert(spec_obj_get(g@.skip(1), "content"@) == Some(g@.skip(1)[0].1));
            assert(spec_obj_get(g@, "content"@) == Some(g@[1].1));
        },
    }
}

/// The lower-case hex digit of a value below sixteen.
pub open spec fn spec_hex_char(d: int) -> char {
    if d == 0 {
        '0'
    } else if d == 1 {
        '1'
    } else if d == 2 {
        '2'
    } else if d == 3 {
        '3'
    } else if d == 4 {
        '4'
    } else if d == 5 {
        '5'
    } else if d == 6 {
        '6'
    } else if d == 7 {
        '7'
    } else if d == 8 {
        '8'
    } else if d == 9 {
        '9'
    } else if d == 10 {
        'a'
    } else if d == 11 {
        'b'
    } else if d == 12 {
        'c'
    } else if d == 13 {
        'd'
    } else if d == 14 {
        'e'
    } else {
        'f'
    }
}

/// JSON escaping of one character: quote and backslash get a two-character
/// escape, a control character a `\u00` escape, and every other character
/// stands as itself.
pub open spec fn spec_escape_char(c: char) -> Seq<char> {
    if c == '"' {
        seq!['\\', '"']
    } else if c == '\\' {
        seq!['\\', '\\']
    } else if (c as u32) < 32 {
        seq!['\\', 'u', '0', '0'] + seq![
            if (c as u32) < 16 {
                '0'
            } else {
                '1'
            },
            spec_hex_char((c as u32 % 16) as int),
        ]
    } else {
        seq![c]
    }
}

/// Append the lower-case hex digit of `d`.
fn append_hex_char(out: &mut String, d: u32)
    requires
        d < 16,
    ensures
        final(out)@ == old(out)@ + seq![spec_hex_char(d as int)],
{
    let piece: &str = match d {
        0 => "0",
        1 => "1",
        2 => "2",
        3 => "3",
        4 => "4",
        5 => "5",
        6 => "6",
        7 => "7",
        8 => "8",
        9 => "9",
        10 => "a",
        11 => "b",
        12 => "c",
        13 => "d",
        14 => "e",
        _ => "f",
    };
    proof {
        reveal_strlit("0");
        reveal_strlit("1");
        reveal_strlit("2");
        reveal_strlit("3");
        reveal_strlit("4");
        reveal_strlit("5");
        reveal_strlit("6");
        reveal_strlit("7");
        reveal_strlit("8");
        reveal_strlit("9");
        reveal_strlit("a");
        reveal_strlit("b");
        reveal_strlit("c");
        reveal_strlit("d");
        reveal_strlit("e");
        reveal_strlit("f");
        assert(piece@ =~= seq![spec_hex_char(d as int)]);
    }
    out.append(piece);
}

/// JSON escaping of a whole string.
pub open spec fn spec_escape(s: Seq<char>) -> Seq<char>
    decreases s.len(),
{
    if s.len() == 0 {
        Seq::empty()
    } else {
        spec_escape(s.drop_last()) + spec_escape_char(s.last())
    }
}

/// Append the JSON-escaped form of `s` to `out`.
fn append_escaped(out: &mut String, s: &str)
    ensures
        final(out)@ == old(out)@ + spec_escape(s@),
{
    let n = s.unicode_len();
    let mut i: usize = 0;
    assert(out@ =~= old(out)@ + spec_escape(s@.take(0)));
    while i < n
        invariant
            n == s@.len(),
            i <= n,
            out@ == old(out)@ + spec_escape(s@.take(i as int)),
        decreases n - i,
    {
        let c = s.get_char(i);
        if c == '"' {
            out.append("\\\"");
            proof {
                reveal_strlit("\\\"");
                assert("\\\""@ =~= spec_escape_char(c));
            }
        } else if c == '\\' {
            out.append("\\\\");
            proof {
                reveal_strlit("\\\\");
                assert("\\\\"@ =~= spec_escape_char(c));
            }
        } else if (c as u32) < 32 {
            out.append("\\u00");
            out.append(if (c as u32) < 16 { "0" } else { "1" });
            append_hex_char(out, (c as u32) % 16);
            proof {
                reveal_strlit("\\u00");
                reveal_strlit("0");
                reveal_strlit("1");
                assert(out@ =~= old(out)@ + spec_escape(s@.take(i as int)) + spec_escape_char(c));
            }
        } else {
            out.append(s.substring_char(i, i + 1));
            proof {
                assert(s@.subrange(i as int, i as int + 1) =~= seq![s@[i as int]]);
            }
        }
        proof {
            assert(s@.take(i as int + 1).drop_last() =~= s@.take(i as int));
            assert(s@.take(i as int + 1).last() == s@[i as int]);
            assert(out@ =~= old(out)@ + spec_escape(s@.take(i as int + 1)));
        }
        i = i + 1;
    }
    assert(s@.take(n as int) =~= s@);
}

/// The decimal digit `d`, for `0 <= d <= 9`.
pub open spec fn spec_dec_digit(d: int) -> char {
    "0123456789"@[d]
}

/// The decimal token of a natural number, most significant digit first.
pub open spec fn spec_dec(n: nat) -> Seq<char>
    decreases n,
{
    if n < 10 {
        seq![spec_dec_digit(n as int)]
    } else {
        spec_dec(n / 10).push(spec_dec_digit((n % 10) as int))
    }
}

/// Append the decimal token of `n` to `out`.
pub fn append_dec_u64(out: &mut String, n: u64)
    ensures
        final(out)@ == old(out)@ + spec_dec(n as nat),
    decreases n,
{
    if n >= 10 {
        append_dec_u64(out, n / 10);
    }
    let d = (n % 10) as usize;
    proof {
        reveal_strlit("0123456789");
    }
    out.append("0123456789".substring_char(d, d + 1));
    proof {
        assert("0123456789"@.subrange(d as int, d as int + 1) =~= seq!["0123456789"@[d as int]]);
        assert(out@ =~= old(out)@ + spec_dec(n as nat));
    }
}

/// The canonical JSON text of the data part of a reply.
pub open spec fn spec_data_text(data: Option<InteractionApplicationCommandCallbackData>) -> Seq<
    char,
> {
    match data {
        None => "null"@,
        Some(d) => "{\"tts\":"@ + (if d.tts {
            "true"@
        } else {
            "false"@
        }) + ",\"content\":\""@ + spec_escape(d.content@) + "\"}"@,
    }
}

/// The canonical JSON text of a reply payload.
pub open spec fn spec_response_text(r: InteractionResponse) -> Seq<char> {
    "{\"type\":"@ + spec_code_token(r.ir_type) + ",\"data\":"@ + spec_data_text(r.data) + "}"@
}

/// Front decomposition of escaping: the escape of a nonempty string is the
/// escape of its first character followed by the escape of the rest.
proof fn lemma_escape_head(s: Seq<char>)
    requires
        s.len() > 0,
    ensures
        spec_escape(s) =~= spec_escape_char(s[0]) + spec_escape(s.skip(1)),
    decreases s.len(),
{
    if s.len() == 1 {
        assert(s.last() == s[0]);
        assert(spec_escape(s.drop_last()) =~= Seq::<char>::empty());
        assert(spec_escape(s.skip(1)) =~= Seq::<char>::empty());
        assert(spec_escape(s) =~= spec_escape_char(s[0]) + spec_escape(s.skip(1)));
    } else {
        lemma_escape_head(s.drop_last());
        assert(s.drop_last()[0] == s[0]);
        assert(s.drop_last().skip(1) =~= s.skip(1).drop_last());
        assert(s.skip(1).last() == s.last());
        let e0 = spec_escape_char(s[0]);
        let mid = spec_escape(s.skip(1).drop_last());
        let elast = spec_escape_char(s.last());
        assert(spec_escape(s.drop_last()) == e0 + spec_escape(s.drop_last().skip(1)));
        assert(spec_escape(s) == (e0 + mid) + elast);
        assert(spec_escape(s.skip(1)) == mid + elast);
        assert((e0 + mid) + elast =~= e0 + (mid + elast));
        assert(spec_escape(s) =~= spec_escape_char(s[0]) + spec_escape(s.skip(1)));
    }
}

/// A JSON-escaped string followed by its closing quote determines the
/// string: escaping is injective even inside a longer text.
proof fn lemma_escape_terminated_injective(c1: Seq<char>, c2: Seq<char>, q: Seq<char>)
    requires
        q.len() > 0,
        q[0] == '"',
        spec_escape(c1) + q == spec_escape(c2) + q,
    ensures
        c1 =~= c2,
    decreases c1.len(),
{
    let s = spec_escape(c1) + q;
    if c1.len() == 0 {
        if c2.len() > 0 {
            lemma_escape_head(c2);
            assert(s[0] == '"');
            assert(s[0] == spec_escape_char(c2[0])[0]);
            assert(false);
        }
    } else if c2.len() == 0 {
        lemma_escape_head(c1);
        assert(s[0] == '"');
        assert(s[0] == spec_escape_char(c1[0])[0]);
        assert(false);
    } else {
        lemma_escape_head(c1);
        lemma_escape_head(c2);
        let a = c1[0];
        let b = c2[0];
        let ea = spec_escape_char(a);
        let eb = spec_escape_char(b);
        assert(s[0] == ea[0] && s[0] == eb[0]);
        if s[0] != '\\' {
            assert(a == s[0] && b == s[0]);
        } else {
            assert(s[1] == ea[1] && s[1] == eb[1]);
            if s[1] == '"' {
                assert(a == '"' && b == '"');
            } else if s[1] == '\\' {
                assert(a == '\\' && b == '\\');
            } else {
                assert(s[1] == 'u');
                assert((a as u32) < 32 && (b as u32) < 32);
                assert(s[4] == ea[4] && s[4] == eb[4]);
                assert(s[5] == ea[5] && s[5] == eb[5]);
                assert((a as u32) < 16 <==> (b as u32) < 16);
                assert(spec_hex_char((a as u32 % 16) as int) == spec_hex_char(
                    (b as u32 % 16) as int,
                ));
                assert(a as u32 % 16 == b as u32 % 16);
                assert(a as u32 == b as u32);
                vstd::utf8::char_u32_cast(a, a as u32);
                vstd::utf8::char_u32_cast(b, b as u32);
                assert(a == b);
            }
        }
        assert(ea =~= eb);
        let k = ea.len() as int;
        assert(spec_escape(c1) == ea + spec_escape(c1.skip(1)));
        assert(spec_escape(c2) == eb + spec_escape(c2.skip(1)));
        assert((ea + spec_escape(c1.skip(1)) + q).skip(k) =~= spec_escape(c1.skip(1)) + q);
        assert((eb + spec_escape(c2.skip(1)) + q).skip(k) =~= spec_escape(c2.skip(1)) + q);
        assert(spec_escape(c1.skip(1)) + q == spec_escape(c2.skip(1)) + q);
        lemma_escape_terminated_injective(c1.skip(1), c2.skip(1), q);
        assert(c1.len() == c2.len());
        assert forall|i: int| 0 <= i < c1.len() implies c1[i] == c2[i] by {
            if i > 0 {
                assert(c1.skip(1)[i - 1] == c2.skip(1)[i - 1]);
                assert(c1.skip(1)[i - 1] == c1[i]);
                assert(c2.skip(1)[i - 1] == c2[i]);
            }
        }
        assert(c1 =~= c2);
    }
}

/// The canonical JSON text of a reply determines the reply: two payloads
/// with the same serialization have the same response type and the same
/// message data, so parsing the text back yields the payload it was built
/// from.
pub proof fn lemma_response_text_injective(r1: InteractionResponse, r2: InteractionResponse)
    requires
        spec_response_text(r1) == spec_response_text(r2),
    ensures
        r1.ir_type == r2.ir_type,
        r1.data is Some <==> r2.data is Some,
        r1.data matches Some(d1) ==> (r2.data matches Some(d2) && d1.tts == d2.tts && d1.content@
            == d2.content@),
{
    reveal_strlit("{\"type\":");
    reveal_strlit(",\"data\":");
    reveal_strlit("null");
    reveal_strlit("{\"tts\":");
    reveal_strlit("true");
    reveal_strlit("false");
    reveal_strlit(",\"content\":\"");
    reveal_strlit("\"}");
    reveal_strlit("}");
    reveal_strlit("1");
    reveal_strlit("2");
    reveal_strlit("3");
    reveal_strlit("4");
    reveal_strlit("5");
    let s1 = spec_response_text(r1);
    let s2 = spec_response_text(r2);
    assert(spec_code_token(r1.ir_type).len() == 1);
    assert(spec_code_token(r2.ir_type).len() == 1);
    assert(s1[8] == spec_code_token(r1.ir_type)[0]);
    assert(s2[8] == spec_code_token(r2.ir_type)[0]);
    assert(r1.ir_type == r2.ir_type);
    let d1 = spec_data_text(r1.data);
    let d2 = spec_data_text(r2.data);
    assert(s1.len() == 18 + d1.len());
    assert(s2.len() == 18 + d2.len());
    assert(d1.len() == d2.len());
    assert forall|i: int| 0 <= i < d1.len() implies d1[i] == d2[i] by {
        assert(d1[i] == s1[17 + i]);
        assert(d2[i] == s2[17 + i]);
    }
    assert(d1 =~= d2);
    match (r1.data, r2.data) {
        (None, None) => {},
        (None, Some(dd2)) => {
            assert(d1[0] == 'n');
            assert(d2[0] == '{');
            assert(false);
        },
        (Some(dd1), None) => {
            assert(d1[0] == '{');
            assert(d2[0] == 'n');
            assert(false);
        },
        (Some(dd1), Some(dd2)) => {
            assert(d1[7] == (if dd1.tts {
                't'
            } else {
                'f'
            }));
            assert(d2[7] == (if dd2.tts {
                't'
            } else {
                'f'
            }));
            assert(dd1.tts == dd2.tts);
            let m = 7 + (if dd1.tts {
                4int
            } else {
                5int
            }) + 12;
            let e1 = spec_escape(dd1.content@);
            let e2 = spec_escape(dd2.content@);
            assert((e1 + "\"}"@).len() == (e2 + "\"}"@).len());
            assert forall|i: int| 0 <= i < (e1 + "\"}"@).len() implies (e1 + "\"}"@)[i] == (e2
                + "\"}"@)[i] by {
                assert((e1 + "\"}"@)[i] == d1[m + i]);
                assert((e2 + "\"}"@)[i] == d2[m + i]);
            }
            assert(e1 + "\"}"@ =~= e2 + "\"}"@);
            lemma_escape_terminated_injective(dd1.content@, dd2.content@, "\"}"@);
        },
    }
}

/// Serialize a reply payload as JSON text.
pub fn response_to_json(r: &InteractionResponse) -> (out: String)
    ensures
        out@ == spec_response_text(*r),
{
    let mut out = String::from_str("{\"type\":");
    out.append(
        match r.ir_type {
            InteractionResponseType::Pong => "1",
            InteractionResponseType::Acknowledge => "2",
            InteractionResponseType::ChannelMessage => "3",
            InteractionResponseType::ChannelMessageWithSource => "4",
            InteractionResponseType::ACKWithSource => "5",
        },
    );
    out.append(",\"data\":");
    match &r.data {
        None => {
            out.append("null");
        },
        Some(d) => {
            out.append("{\"tts\":");
            out.append(if d.tts { "true" } else { "false" });
            out.append(",\"content\":\"");
            append_escaped(&mut out, d.content.as_str());
            out.append("\"}");
        },
    }
    out.append("}");
    assert(out@ =~= spec_response_text(*r));
    out
}

} // verus!
