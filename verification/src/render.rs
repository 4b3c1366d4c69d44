//! Client-dialect event records and their wire form. Each record is
//! serialized as a JSON object with its keys in fixed (alphabetical) order
//! and every string field escaped; streamed records are then wrapped in
//! event-stream framing.

use vstd::prelude::*;
use vstd::string::{StrSliceExecFns, StringSliceAdditionalSpecFns};

use crate::bytes::append_bytes;

verus! {

/// One client-visible event: an incremental fragment shaped for the chat
/// or the completion form, or the terminal record.
pub enum ClientEvent {
    Partial { chat: bool, model: Vec<u8>, created_at: Vec<u8>, role: Vec<u8>, content: Vec<u8> },
    Final { model: Vec<u8>, created_at: Vec<u8> },
}

/// Mathematical shape of a [`ClientEvent`].
pub enum ClientEventSpec {
    Partial { chat: bool, model: Seq<u8>, created_at: Seq<u8>, role: Seq<u8>, content: Seq<u8> },
    Final { model: Seq<u8>, created_at: Seq<u8> },
}

impl View for ClientEvent {
    type V = ClientEventSpec;

    open spec fn view(&self) -> ClientEventSpec {
        match self {
            ClientEvent::Partial { chat, model, created_at, role, content } => {
                ClientEventSpec::Partial {
                    chat: *chat,
                    model: model@,
                    created_at: created_at@,
                    role: role@,
                    content: content@,
                }
            },
            ClientEvent::Final { model, created_at } => {
                ClientEventSpec::Final { model: model@, created_at: created_at@ }
            },
        }
    }
}

/// Lower-case hexadecimal digit for a value below sixteen.
pub open spec fn hex_digit(v: u8) -> u8 {
    if v < 10 {
        (48 + v) as u8
    } else {
        (87 + v) as u8
    }
}

/// JSON escaping of one byte inside a string literal: quote, backslash and
/// the short control escapes get a two-byte form, any other control byte a
/// six-byte `\u00..` form, and every remaining byte stands unchanged.
pub open spec fn escape_byte(b: u8) -> Seq<u8> {
    if b == 34 {
        seq![92u8, 34u8]
    } else if b == 92 {
        seq![92u8, 92u8]
    } else if b == 8 {
        seq![92u8, 98u8]
    } else if b == 9 {
        seq![92u8, 116u8]
    } else if b == 10 {
        seq![92u8, 110u8]
    } else if b == 12 {
        seq![92u8, 102u8]
    } else if b == 13 {
        seq![92u8, 114u8]
    } else if b < 32 {
        seq![92u8, 117u8, 48u8, 48u8, hex_digit(b / 16), hex_digit(b % 16)]
    } else {
        seq![b]
    }
}

/// JSON escaping of a whole byte string, byte by byte.
pub open spec fn escape_bytes(s: Seq<u8>) -> Seq<u8>
    decreases s.len(),
{
    if s.len() == 0 {
        Seq::empty()
    } else {
        escape_byte(s[0]) + escape_bytes(s.drop_first())
    }
}

proof fn lemma_escape_snoc(s: Seq<u8>)
    requires
        s.len() > 0,
    ensures
        escape_bytes(s) == escape_bytes(s.drop_last()) + escape_byte(s.last()),
    decreases s.len(),
{
    if s.len() == 1 {
        assert(s.drop_first() =~= Seq::<u8>::empty());
        assert(s.drop_last() =~= Seq::<u8>::empty());
        assert(escape_byte(s[0]) + Seq::<u8>::empty() =~= escape_byte(s[0]));
        assert(Seq::<u8>::empty() + escape_byte(s.last()) =~= escape_byte(s.last()));
    } else {
        let t = s.drop_first();
        lemma_escape_snoc(t);
        assert(t.drop_last() =~= s.drop_last().drop_first());
        assert(t.last() == s.last());
        assert(escape_byte(s[0]) + (escape_bytes(t.drop_last()) + escape_byte(s.last())) =~= (
        escape_byte(s[0]) + escape_bytes(s.drop_last().drop_first())) + escape_byte(s.last()));
        assert(s.drop_last()[0] == s[0]);
    }
}

fn hex_digit_code(v: u8) -> (r: u8)
    requires
        v < 16,
    ensures
        r == hex_digit(v),
{
    if v < 10 {
        48 + v
    } else {
        87 + v
    }
}

/// Appends the JSON escaping of `s` to `out`.
fn escape_into(out: &mut Vec<u8>, s: &[u8])
    ensures
        final(out)@ == old(out)@ + escape_bytes(s@),
{
    let mut i: usize = 0;
    proof {
        assert(old(out)@ + escape_bytes(s@.take(0)) =~= old(out)@);
    }
    while i < s.len()
        invariant
            i <= s@.len(),
            out@ == old(out)@ + escape_bytes(s@.take(i as int)),
        decreases s@.len() - i,
    {
        let b = s[i];
        if b == 34 {
            out.push(92);
            out.push(34);
        } else if b == 92 {
            out.push(92);
            out.push(92);
        } else if b == 8 {
            out.push(92);
            out.push(98);
        } else if b == 9 {
            out.push(92);
            out.push(116);
        } else if b == 10 {
            out.push(92);
            out.push(110);
        } else if b == 12 {
            out.push(92);
            out.push(102);
        } else if b == 13 {
            out.push(92);
            out.push(114);
        } else if b < 32 {
            out.push(92);
            out.push(117);
            out.push(48);
            out.push(48);
            out.push(hex_digit_code(b / 16));
            out.push(hex_digit_code(b % 16));
        } else {
            out.push(b);
        }
        proof {
            let t = s@.take(i + 1 as int);
            lemma_escape_snoc(t);
            assert(t.drop_last() =~= s@.take(i as int));
            assert(t.last() == s@[i as int]);
            assert(out@ =~= old(out)@ + escape_bytes(t));
        }
        i += 1;
    }
    proof {
        assert(s@.take(s@.len() as int) =~= s@);
    }
}

/// Serialized JSON record for a client event: keys in alphabetical order,
/// string fields escaped; partial records carry `"done":false` and the
/// mode-appropriate payload, the final record `"done":true` and the model.
pub open spec fn render_record(e: ClientEventSpec) -> Seq<u8> {
    match e {
        ClientEventSpec::Partial { chat, model, created_at, role, content } => {
            if chat {
                ("{\"created_at\":\"").spec_bytes() + escape_bytes(created_at) + (
                "\",\"done\":false,\"message\":{\"content\":\"").spec_bytes() + escape_bytes(
                    content,
                ) + ("\",\"role\":\"").spec_bytes() + escape_bytes(role) + (
                "\"},\"model\":\"").spec_bytes() + escape_bytes(model) + ("\"}").spec_bytes()
            } else {
                ("{\"created_at\":\"").spec_bytes() + escape_bytes(created_at) + (
                "\",\"done\":false,\"model\":\"").spec_bytes() + escape_bytes(model) + (
                "\",\"response\":\"").spec_bytes() + escape_bytes(content) + ("\"}").spec_bytes()
            }
        },
        ClientEventSpec::Final { model, created_at } => {
            ("{\"created_at\":\"").spec_bytes() + escape_bytes(created_at) + (
            "\",\"done\":true,\"model\":\"").spec_bytes() + escape_bytes(model) + (
            "\"}").spec_bytes()
        },
    }
}

/// Serializes one client event as its JSON record.
pub fn render_client_event(e: &ClientEvent) -> (r: Vec<u8>)
    ensures
        r@ == render_record(e@),
{
    let mut out: Vec<u8> = Vec::new();
    match e {
        ClientEvent::Partial { chat, model, created_at, role, content } => {
            if *chat {
                append_bytes(&mut out, "{\"created_at\":\"".as_bytes());
                escape_into(&mut out, created_at.as_slice());
                append_bytes(&mut out, "\",\"done\":false,\"message\":{\"content\":\"".as_bytes());
                escape_into(&mut out, content.as_slice());
                append_bytes(&mut out, "\",\"role\":\"".as_bytes());
                escape_into(&mut out, role.as_slice());
                append_bytes(&mut out, "\"},\"model\":\"".as_bytes());
                escape_into(&mut out, model.as_slice());
                append_bytes(&mut out, "\"}".as_bytes());
            } else {
                append_bytes(&mut out, "{\"created_at\":\"".as_bytes());
                escape_into(&mut out, created_at.as_slice());
                append_bytes(&mut out, "\",\"done\":false,\"model\":\"".as_bytes());
                escape_into(&mut out, model.as_slice());
                append_bytes(&mut out, "\",\"response\":\"".as_bytes());
                escape_into(&mut out, content.as_slice());
                append_bytes(&mut out, "\"}".as_bytes());
            }
        },
        ClientEvent::Final { model, created_at } => {
            append_bytes(&mut out, "{\"created_at\":\"".as_bytes());
            escape_into(&mut out, created_at.as_slice());
            append_bytes(&mut out, "\",\"done\":true,\"model\":\"".as_bytes());
            escape_into(&mut out, model.as_slice());
            append_bytes(&mut out, "\"}".as_bytes());
        },
    }
    proof {
        assert(out@ =~= render_record(e@));
    }
    out
}

/// Builds the serialized incremental record the stream emits for one
/// decoded content fragment.
pub fn create_streaming_chunk(
    model_name: &str,
    content: &str,
    role: &str,
    is_chat: bool,
    created_at: &str,
) -> (r: Vec<u8>)
    ensures
        r@ == render_record(
            ClientEventSpec::Partial {
                chat: is_chat,
                model: model_name.spec_bytes(),
                created_at: created_at.spec_bytes(),
                role: role.spec_bytes(),
                content: content.spec_bytes(),
            },
        ),
{
    let e = ClientEvent::Partial {
        chat: is_chat,
        model: model_name.as_bytes_vec(),
        created_at: created_at.as_bytes_vec(),
        role: role.as_bytes_vec(),
        content: content.as_bytes_vec(),
    };
    render_client_event(&e)
}

/// Builds the serialized terminal record that closes a stream.
pub fn create_done_chunk(model_name: &str, created_at: &str) -> (r: Vec<u8>)
    ensures
        r@ == render_record(
            ClientEventSpec::Final {
                model: model_name.spec_bytes(),
                created_at: created_at.spec_bytes(),
            },
        ),
{
    let e = ClientEvent::Final {
        model: model_name.as_bytes_vec(),
        created_at: created_at.as_bytes_vec(),
    };
    render_client_event(&e)
}

/// Wraps one serialized record in outbound event-stream framing.
pub fn sse_frame(record: &[u8]) -> (r: Vec<u8>)
    ensures
        r@ == ("data: ").spec_bytes() + record@ + ("\n\n").spec_bytes(),
{
    let mut out: Vec<u8> = Vec::new();
    append_bytes(&mut out, "data: ".as_bytes());
    append_bytes(&mut out, record);
    append_bytes(&mut out, "\n\n".as_bytes());
    out
}

} // verus!
