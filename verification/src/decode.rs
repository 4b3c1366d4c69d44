//! Event decoding: one reassembled frame becomes a backend event — an
//! incremental delta, the terminal sentinel, or an unrecognized record
//! that the stream skips silently.

use vstd::prelude::*;
use vstd::string::StringSliceAdditionalSpecFns;

use crate::bytes::{bytes_eq, slice_starts_with, starts_with};
use crate::jsonval::{
    json_get_field, json_get_index, json_node_of, json_parse, json_str_bytes, JsonNode,
};

verus! {

/// One decoded backend event.
#[derive(Debug)]
pub enum BackendEvent {
    Delta { role: Vec<u8>, content: Vec<u8> },
    Terminal,
    Unrecognized,
}

/// Mathematical shape of a [`BackendEvent`].
pub enum BackendEventSpec {
    Delta { role: Seq<u8>, content: Seq<u8> },
    Terminal,
    Unrecognized,
}

impl View for BackendEvent {
    type V = BackendEventSpec;

    open spec fn view(&self) -> BackendEventSpec {
        match self {
            BackendEvent::Delta { role, content } => {
                BackendEventSpec::Delta { role: role@, content: content@ }
            },
            BackendEvent::Terminal => BackendEventSpec::Terminal,
            BackendEvent::Unrecognized => BackendEventSpec::Unrecognized,
        }
    }
}

/// The prefix an event-data frame must carry.
pub open spec fn data_prefix() -> Seq<u8> {
    ("data: ").spec_bytes()
}

/// The literal end-of-stream sentinel that follows the prefix.
pub open spec fn done_token() -> Seq<u8> {
    ("[DONE]").spec_bytes()
}

/// The text of a string shape; empty for any other shape.
pub open spec fn str_of(n: JsonNode) -> Seq<u8> {
    match n {
        JsonNode::Str(b) => b,
        _ => Seq::empty(),
    }
}

/// The event carried by the members of a delta object: its `content`
/// string, with the `role` string defaulting to empty when absent.
pub open spec fn delta_event(d: Map<Seq<char>, JsonNode>) -> BackendEventSpec {
    if d.dom().contains("content"@) && d["content"@] is Str {
        BackendEventSpec::Delta {
            role: if d.dom().contains("role"@) && d["role"@] is Str {
                str_of(d["role"@])
            } else {
                Seq::empty()
            },
            content: str_of(d["content"@]),
        }
    } else {
        BackendEventSpec::Unrecognized
    }
}

/// The event carried by a parsed backend record: the delta of the first
/// choice, where the record has that shape.
pub open spec fn event_of_node(n: JsonNode) -> BackendEventSpec {
    match n {
        JsonNode::Obj(m) => {
            if m.dom().contains("choices"@) {
                match m["choices"@] {
                    JsonNode::Arr(choices) => {
                        if choices.len() > 0 {
                            match choices[0] {
                                JsonNode::Obj(c) => {
                                    if c.dom().contains("delta"@) {
                                        match c["delta"@] {
                                            JsonNode::Obj(d) => delta_event(d),
                                            _ => BackendEventSpec::Unrecognized,
                                        }
                                    } else {
                                        BackendEventSpec::Unrecognized
                                    }
                                },
                                _ => BackendEventSpec::Unrecognized,
                            }
                        } else {
                            BackendEventSpec::Unrecognized
                        }
                    },
                    _ => BackendEventSpec::Unrecognized,
                }
            } else {
                BackendEventSpec::Unrecognized
            }
        },
        _ => BackendEventSpec::Unrecognized,
    }
}

/// The event a frame decodes to. A frame without the event-data prefix is
/// not an event; a payload equal to the sentinel ends the stream; any
/// other payload is read as JSON and inspected for a first-choice delta.
pub open spec fn decode_spec(frame: Seq<u8>) -> BackendEventSpec {
    if !starts_with(frame, data_prefix()) {
        BackendEventSpec::Unrecognized
    } else {
        let payload = frame.skip(data_prefix().len() as int);
        if payload == done_token() {
            BackendEventSpec::Terminal
        } else {
            match json_node_of(payload) {
                Some(n) => event_of_node(n),
                None => BackendEventSpec::Unrecognized,
            }
        }
    }
}

/// Decodes one trimmed frame.
pub fn decode_frame(frame: &[u8]) -> (ev: BackendEvent)
    ensures
        ev@ == decode_spec(frame@),
{
    let prefix = "data: ".as_bytes();
    if !slice_starts_with(frame, prefix) {
        return BackendEvent::Unrecognized;
    }
    let payload = vstd::slice::slice_subrange(frame, prefix.len(), frame.len());
    proof {
        assert(payload@ =~= frame@.skip(data_prefix().len() as int));
    }
    if bytes_eq(payload, "[DONE]".as_bytes()) {
        return BackendEvent::Terminal;
    }
    let parsed = json_parse(payload);
    let v = match parsed {
        Some(v) => v,
        None => {
            return BackendEvent::Unrecognized;
        },
    };
    let choices = match json_get_field(&v, "choices") {
        Some(c) => c,
        None => {
            return BackendEvent::Unrecognized;
        },
    };
    let first = match json_get_index(choices, 0) {
        Some(f) => f,
        None => {
            return BackendEvent::Unrecognized;
        },
    };
    let delta = match json_get_field(first, "delta") {
        Some(d) => d,
        None => {
            return BackendEvent::Unrecognized;
        },
    };
    let content = match json_get_field(delta, "content") {
        Some(c) => match json_str_bytes(c) {
            Some(b) => b,
            None => {
                return BackendEvent::Unrecognized;
            },
        },
        None => {
            return BackendEvent::Unrecognized;
        },
    };
    let role = match json_get_field(delta, "role") {
        Some(r) => match json_str_bytes(r) {
            Some(b) => b,
            None => Vec::new(),
        },
        None => Vec::new(),
    };
    BackendEvent::Delta { role, content }
}

} // verus!
