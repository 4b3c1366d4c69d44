//! Stream relay: the per-request state machine that turns transport
//! chunks into client-dialect records. Each chunk is reassembled into
//! frames, each frame decoded and translated, and translation stops at
//! the first terminal sentinel; trailing buffered bytes are discarded.

use vstd::prelude::*;

use crate::decode::{decode_frame, decode_spec, BackendEvent, BackendEventSpec};
use crate::frame::{frame_seq, tail_after_frames, FrameReassembler};
use crate::render::{render_client_event, render_record, ClientEvent, ClientEventSpec};

verus! {

/// Translation of one backend event into the client dialect: a delta
/// becomes a mode-shaped partial record, the terminal sentinel the final
/// record, and an unrecognized event nothing.
pub open spec fn translate_spec(
    ev: BackendEventSpec,
    chat: bool,
    model: Seq<u8>,
    created_at: Seq<u8>,
) -> Option<ClientEventSpec> {
    match ev {
        BackendEventSpec::Delta { role, content } => {
            Some(ClientEventSpec::Partial { chat, model, created_at, role, content })
        },
        BackendEventSpec::Terminal => Some(ClientEventSpec::Final { model, created_at }),
        BackendEventSpec::Unrecognized => None,
    }
}

/// Maps one backend event into the client dialect.
pub fn translate_event(ev: &BackendEvent, chat: bool, model: &[u8], created_at: &[u8]) -> (r:
    Option<ClientEvent>)
    ensures
        r is Some <==> translate_spec(ev@, chat, model@, created_at@) is Some,
        r matches Some(c) ==> Some(c@) == translate_spec(ev@, chat, model@, created_at@),
{
    match ev {
        BackendEvent::Delta { role, content } => Some(
            ClientEvent::Partial {
                chat,
                model: vstd::slice::slice_to_vec(model),
                created_at: vstd::slice::slice_to_vec(created_at),
                role: vstd::slice::slice_to_vec(role.as_slice()),
                content: vstd::slice::slice_to_vec(content.as_slice()),
            },
        ),
        BackendEvent::Terminal => Some(
            ClientEvent::Final {
                model: vstd::slice::slice_to_vec(model),
                created_at: vstd::slice::slice_to_vec(created_at),
            },
        ),
        BackendEvent::Unrecognized => None,
    }
}

/// Some event of the sequence is the terminal sentinel.
pub open spec fn stream_has_terminal(events: Seq<BackendEventSpec>) -> bool {
    exists|i: int| 0 <= i < events.len() && events[i] is Terminal
}

/// Client events produced from a sequence of backend events: deltas become
/// partial records in order, and the first terminal becomes the final
/// record and ends translation; everything after it is dropped.
pub open spec fn client_events_of(
    events: Seq<BackendEventSpec>,
    chat: bool,
    model: Seq<u8>,
    ts: Seq<u8>,
) -> Seq<ClientEventSpec>
    decreases events.len(),
{
    if events.len() == 0 {
        Seq::empty()
    } else {
        match events.first() {
            BackendEventSpec::Delta { role, content } => {
                seq![ClientEventSpec::Partial { chat, model, created_at: ts, role, content }]
                    + client_events_of(events.drop_first(), chat, model, ts)
            },
            BackendEventSpec::Terminal => seq![
                ClientEventSpec::Final { model, created_at: ts },
            ],
            BackendEventSpec::Unrecognized => client_events_of(events.drop_first(), chat, model, ts),
        }
    }
}

/// The backend events a sequence of frames decodes to.
pub open spec fn events_of_frames(frames: Seq<Seq<u8>>) -> Seq<BackendEventSpec> {
    frames.map_values(|f: Seq<u8>| decode_spec(f))
}

proof fn lemma_client_events_append(
    p: Seq<BackendEventSpec>,
    q: Seq<BackendEventSpec>,
    chat: bool,
    model: Seq<u8>,
    ts: Seq<u8>,
)
    requires
        !stream_has_terminal(p),
    ensures
        client_events_of(p + q, chat, model, ts) == client_events_of(p, chat, model, ts)
            + client_events_of(q, chat, model, ts),
    decreases p.len(),
{
    if p.len() == 0 {
        assert(p + q =~= q);
        assert(Seq::<ClientEventSpec>::empty() + client_events_of(q, chat, model, ts)
            =~= client_events_of(q, chat, model, ts));
    } else {
        assert((p + q).first() == p.first());
        assert((p + q).drop_first() =~= p.drop_first() + q);
        assert(!stream_has_terminal(p.drop_first())) by {
            if stream_has_terminal(p.drop_first()) {
                let i = choose|i: int|
                    0 <= i < p.drop_first().len() && p.drop_first()[i] is Terminal;
                assert(p[i + 1] is Terminal);
            }
        }
        assert(!(p.first() is Terminal)) by {
            if p.first() is Terminal {
                assert(p[0] is Terminal);
            }
        }
        lemma_client_events_append(p.drop_first(), q, chat, model, ts);
        match p.first() {
            BackendEventSpec::Delta { role, content } => {
                let head = seq![
                    ClientEventSpec::Partial { chat, model, created_at: ts, role, content },
                ];
                assert(head + (client_events_of(p.drop_first(), chat, model, ts)
                    + client_events_of(q, chat, model, ts)) =~= (head + client_events_of(
                    p.drop_first(),
                    chat,
                    model,
                    ts,
                )) + client_events_of(q, chat, model, ts));
            },
            BackendEventSpec::Terminal => {},
            BackendEventSpec::Unrecognized => {},
        }
    }
}

/// A terminal sentinel anywhere in the event sequence yields exactly one
/// final record, in last position, with only partial records before it;
/// without a terminal sentinel every record is partial and none is final.
pub proof fn lemma_exactly_one_final(
    events: Seq<BackendEventSpec>,
    chat: bool,
    model: Seq<u8>,
    ts: Seq<u8>,
)
    ensures
        ({
            let cs = client_events_of(events, chat, model, ts);
            &&& stream_has_terminal(events) ==> cs.len() >= 1 && cs.last() is Final && (forall|
                i: int,
            |
                0 <= i < cs.len() - 1 ==> cs[i] is Partial)
            &&& !stream_has_terminal(events) ==> forall|i: int|
                0 <= i < cs.len() ==> cs[i] is Partial
        }),
    decreases events.len(),
{
    let cs = client_events_of(events, chat, model, ts);
    if events.len() == 0 {
        if stream_has_terminal(events) {
            let i = choose|i: int| 0 <= i < events.len() && events[i] is Terminal;
        }
    } else {
        lemma_exactly_one_final(events.drop_first(), chat, model, ts);
        let rest = client_events_of(events.drop_first(), chat, model, ts);
        if events.first() is Terminal {
            assert(events[0] is Terminal);
            assert(cs =~= seq![ClientEventSpec::Final { model, created_at: ts }]);
        } else {
            match events.first() {
                BackendEventSpec::Delta { role, content } => {
                    let head = seq![
                        ClientEventSpec::Partial { chat, model, created_at: ts, role, content },
                    ];
                    assert(cs == head + rest);
                    assert(forall|i: int| 1 <= i < cs.len() ==> cs[i] == rest[i - 1]);
                    assert(cs[0] is Partial);
                },
                BackendEventSpec::Terminal => {},
                BackendEventSpec::Unrecognized => {
                    assert(cs == rest);
                },
            }
            assert(stream_has_terminal(events) ==> stream_has_terminal(events.drop_first())) by {
                if stream_has_terminal(events) {
                    let i = choose|i: int| 0 <= i < events.len() && events[i] is Terminal;
                    assert(events.drop_first()[i - 1] is Terminal);
                }
            }
            assert(stream_has_terminal(events.drop_first()) ==> stream_has_terminal(events)) by {
                if stream_has_terminal(events.drop_first()) {
                    let i = choose|i: int|
                        0 <= i < events.drop_first().len() && events.drop_first()[i] is Terminal;
                    assert(events[i + 1] is Terminal);
                }
            }
        }
    }
}

/// The content bytes of every delta before the first terminal, in order.
pub open spec fn delta_contents(events: Seq<BackendEventSpec>) -> Seq<Seq<u8>>
    decreases events.len(),
{
    if events.len() == 0 {
        Seq::empty()
    } else {
        match events.first() {
            BackendEventSpec::Delta { role, content } => {
                seq![content] + delta_contents(events.drop_first())
            },
            BackendEventSpec::Terminal => Seq::empty(),
            BackendEventSpec::Unrecognized => delta_contents(events.drop_first()),
        }
    }
}

/// The content bytes of the partial records, in order.
pub open spec fn partial_contents(cs: Seq<ClientEventSpec>) -> Seq<Seq<u8>>
    decreases cs.len(),
{
    if cs.len() == 0 {
        Seq::empty()
    } else {
        match cs.first() {
            ClientEventSpec::Partial { chat, model, created_at, role, content } => {
                seq![content] + partial_contents(cs.drop_first())
            },
            ClientEventSpec::Final { model, created_at } => partial_contents(cs.drop_first()),
        }
    }
}

/// The partial records preserve the deltas' contents and their relative
/// order, and concatenating all partial contents in order reproduces the
/// full text of the deltas before the first terminal.
pub proof fn lemma_partials_preserve_content(
    events: Seq<BackendEventSpec>,
    chat: bool,
    model: Seq<u8>,
    ts: Seq<u8>,
)
    ensures
        partial_contents(client_events_of(events, chat, model, ts)) == delta_contents(events),
        partial_contents(client_events_of(events, chat, model, ts)).flatten() == delta_contents(
            events,
        ).flatten(),
    decreases events.len(),
{
    let cs = client_events_of(events, chat, model, ts);
    if events.len() == 0 {
    } else {
        lemma_partials_preserve_content(events.drop_first(), chat, model, ts);
        let rest = client_events_of(events.drop_first(), chat, model, ts);
        match events.first() {
            BackendEventSpec::Delta { role, content } => {
                let head = seq![
                    ClientEventSpec::Partial { chat, model, created_at: ts, role, content },
                ];
                assert(cs == head + rest);
                assert((head + rest).first() == head[0]);
                assert((head + rest).drop_first() =~= rest);
                assert(partial_contents(cs) == seq![content] + partial_contents(cs.drop_first()));
            },
            BackendEventSpec::Terminal => {
                assert(cs.first() is Final);
                assert(cs.drop_first() =~= Seq::<ClientEventSpec>::empty());
                assert(partial_contents(Seq::<ClientEventSpec>::empty()) =~= Seq::<Seq<u8>>::empty());
                assert(partial_contents(cs) =~= Seq::<Seq<u8>>::empty());
            },
            BackendEventSpec::Unrecognized => {},
        }
    }
}

/// Outcome of one relay step.
#[derive(Debug, PartialEq, Eq, Structural, Clone, Copy)]
pub enum RelayStatus {
    /// The stream goes on; more chunks may follow.
    Running,
    /// The terminal sentinel was seen and the final record emitted.
    Finished,
    /// The chunk would have overflowed the buffer; the stream is aborted.
    Overflow,
}

/// Records produced by one relay step, with what the stream should do next.
pub struct RelayStep {
    pub records: Vec<Vec<u8>>,
    pub status: RelayStatus,
}

/// Per-request relay state: the reassembly buffer plus the fixed response
/// mode and model name, and whether the stream has closed.
pub struct StreamRelay {
    frames: FrameReassembler,
    chat: bool,
    model: Vec<u8>,
    closing: bool,
}

impl StreamRelay {
    /// Bytes buffered but not yet terminated by a line feed.
    pub closed spec fn buffer(&self) -> Seq<u8> {
        self.frames.buffer()
    }

    /// The configured buffer-size ceiling.
    pub closed spec fn ceiling(&self) -> int {
        self.frames.ceiling()
    }

    /// Chat mode (nested message payloads) or completion mode (flat
    /// response payloads).
    pub closed spec fn is_chat(&self) -> bool {
        self.chat
    }

    /// The model name stamped on every record.
    pub closed spec fn model(&self) -> Seq<u8> {
        self.model@
    }

    /// The stream saw its terminal sentinel or was aborted.
    pub closed spec fn closed(&self) -> bool {
        self.closing
    }

    pub closed spec fn wf(&self) -> bool {
        self.frames.wf()
    }

    pub fn new(chat: bool, model: Vec<u8>, ceiling: usize) -> (r: Self)
        ensures
            r.wf(),
            !r.closed(),
            r.is_chat() == chat,
            r.model() == model@,
            r.ceiling() == ceiling as int,
            r.buffer() == Seq::<u8>::empty(),
    {
        StreamRelay { frames: FrameReassembler::new(ceiling), chat, model, closing: false }
    }

    /// Marks the stream closed: called when the transport ends or fails.
    /// A transport end without a terminal sentinel emits no synthetic
    /// final record; the caller observes a truncated stream.
    pub fn close(&mut self)
        ensures
            final(self).closed(),
            final(self).buffer() == old(self).buffer(),
            final(self).model() == old(self).model(),
            final(self).is_chat() == old(self).is_chat(),
            final(self).ceiling() == old(self).ceiling(),
            final(self).wf() == old(self).wf(),
    {
        self.closing = true;
    }

    /// Processes one transport chunk: reassembles frames, decodes and
    /// translates each in order, and serializes every resulting record,
    /// stopping at the first terminal sentinel. A chunk that would
    /// overflow the buffer aborts the stream before any frame of it is
    /// processed.
    pub fn on_chunk(&mut self, chunk: &[u8], created_at: &[u8]) -> (r: RelayStep)
        requires
            old(self).wf(),
            !old(self).closed(),
        ensures
            final(self).wf(),
            final(self).is_chat() == old(self).is_chat(),
            final(self).model() == old(self).model(),
            final(self).ceiling() == old(self).ceiling(),
            ({
                let total = old(self).buffer() + chunk@;
                let evs = events_of_frames(frame_seq(total));
                if total.len() > old(self).ceiling() {
                    &&& r.status == RelayStatus::Overflow
                    &&& r.records@.len() == 0
                    &&& final(self).closed()
                    &&& final(self).buffer() == old(self).buffer()
                } else {
                    &&& r.records@.map_values(|v: Vec<u8>| v@) == client_events_of(
                        evs,
                        old(self).is_chat(),
                        old(self).model(),
                        created_at@,
                    ).map_values(|c: ClientEventSpec| render_record(c))
                    &&& r.status == (if stream_has_terminal(evs) {
                        RelayStatus::Finished
                    } else {
                        RelayStatus::Running
                    })
                    &&& final(self).closed() == stream_has_terminal(evs)
                    &&& final(self).buffer() == tail_after_frames(total)
                }
            }),
    {
        let ghost chat = self.chat;
        let ghost model_v = self.model@;
        let fed = self.frames.feed(chunk);
        let frames = match fed {
            Err(_) => {
                self.closing = true;
                return RelayStep { records: Vec::new(), status: RelayStatus::Overflow };
            },
            Ok(frames) => frames,
        };
        let ghost fseq = frames@.map_values(|f: Vec<u8>| f@);
        let ghost evs = events_of_frames(fseq);
        let mut records: Vec<Vec<u8>> = Vec::new();
        let mut finished = false;
        let mut i: usize = 0;
        proof {
            assert(records@.map_values(|v: Vec<u8>| v@) =~= Seq::<Seq<u8>>::empty());
            assert(evs.take(0) =~= Seq::<BackendEventSpec>::empty());
            assert(client_events_of(evs.take(0), chat, model_v, created_at@).map_values(
                |c: ClientEventSpec| render_record(c),
            ) =~= Seq::<Seq<u8>>::empty());
        }
        while i < frames.len() && !finished
            invariant
                i <= fseq.len(),
                fseq.len() == frames@.len(),
                fseq == frames@.map_values(|f: Vec<u8>| f@),
                evs == events_of_frames(fseq),
                chat == self.chat,
                model_v == self.model@,
                !finished ==> {
                    &&& records@.map_values(|v: Vec<u8>| v@) == client_events_of(
                        evs.take(i as int),
                        chat,
                        model_v,
                        created_at@,
                    ).map_values(|c: ClientEventSpec| render_record(c))
                    &&& !stream_has_terminal(evs.take(i as int))
                },
                finished ==> {
                    &&& records@.map_values(|v: Vec<u8>| v@) == client_events_of(
                        evs,
                        chat,
                        model_v,
                        created_at@,
                    ).map_values(|c: ClientEventSpec| render_record(c))
                    &&& stream_has_terminal(evs)
                },
            decreases fseq.len() - i,
        {
            let ev = decode_frame(frames[i].as_slice());
            proof {
                assert(fseq[i as int] == frames@[i as int]@);
                assert(evs[i as int] == decode_spec(fseq[i as int]));
                assert(evs.take(i + 1 as int) =~= evs.take(i as int) + seq![evs[i as int]]);
                lemma_client_events_append(
                    evs.take(i as int),
                    seq![evs[i as int]],
                    chat,
                    model_v,
                    created_at@,
                );
            }
            let is_terminal = match &ev {
                BackendEvent::Terminal => true,
                _ => false,
            };
            let translated = translate_event(&ev, self.chat, self.model.as_slice(), created_at);
            match translated {
                Some(c) => {
                    let rendered = render_client_event(&c);
                    let ghost rs = records@.map_values(|v: Vec<u8>| v@);
                    records.push(rendered);
                    proof {
                        assert(records@.map_values(|v: Vec<u8>| v@) =~= rs + seq![rendered@]);
                    }
                },
                None => {},
            }
            proof {
                let single = seq![evs[i as int]];
                let ce_single = client_events_of(single, chat, model_v, created_at@);
                assert(single.drop_first() =~= Seq::<BackendEventSpec>::empty());
                assert(single.first() == evs[i as int]);
                assert(client_events_of(Seq::<BackendEventSpec>::empty(), chat, model_v, created_at@)
                    =~= Seq::<ClientEventSpec>::empty());
                match evs[i as int] {
                    BackendEventSpec::Delta { role, content } => {
                        assert(ce_single =~= seq![
                            ClientEventSpec::Partial {
                                chat,
                                model: model_v,
                                created_at: created_at@,
                                role,
                                content,
                            },
                        ]);
                    },
                    BackendEventSpec::Terminal => {
                        assert(ce_single =~= seq![
                            ClientEventSpec::Final { model: model_v, created_at: created_at@ },
                        ]);
                    },
                    BackendEventSpec::Unrecognized => {
                        assert(ce_single =~= Seq::<ClientEventSpec>::empty());
                    },
                }
                assert(client_events_of(evs.take(i + 1 as int), chat, model_v, created_at@)
                    .map_values(|c: ClientEventSpec| render_record(c)) =~= client_events_of(
                    evs.take(i as int),
                    chat,
                    model_v,
                    created_at@,
                ).map_values(|c: ClientEventSpec| render_record(c)) + ce_single.map_values(
                    |c: ClientEventSpec| render_record(c),
                ));
            }
            if is_terminal {
                finished = true;
                proof {
                    assert(evs[i as int] is Terminal);
                    assert(stream_has_terminal(evs));
                    assert(evs =~= evs.take(i as int) + evs.skip(i as int));
                    assert(!stream_has_terminal(evs.take(i as int)));
                    lemma_client_events_append(
                        evs.take(i as int),
                        evs.skip(i as int),
                        chat,
                        model_v,
                        created_at@,
                    );
                    assert(evs.skip(i as int).first() == evs[i as int]);
                    assert(client_events_of(evs.skip(i as int), chat, model_v, created_at@) =~= seq![
                        ClientEventSpec::Final { model: model_v, created_at: created_at@ },
                    ]);
                    assert(records@.map_values(|v: Vec<u8>| v@) =~= client_events_of(
                        evs,
                        chat,
                        model_v,
                        created_at@,
                    ).map_values(|c: ClientEventSpec| render_record(c)));
                }
            } else {
                proof {
                    assert(!(evs[i as int] is Terminal));
                    assert(!stream_has_terminal(evs.take(i + 1 as int))) by {
                        if stream_has_terminal(evs.take(i + 1 as int)) {
                            let k = choose|k: int|
                                0 <= k < evs.take(i + 1 as int).len() && #[trigger] evs.take(
                                    i + 1 as int,
                                )[k] is Terminal;
                            if k < i {
                                assert(evs.take(i as int)[k] is Terminal);
                            }
                        }
                    }
                }
            }
            i += 1;
        }
        proof {
            if !finished {
                assert(evs.take(fseq.len() as int) =~= evs);
                if stream_has_terminal(evs) {
                    assert(!stream_has_terminal(evs.take(fseq.len() as int)));
                }
            }
        }
        if finished {
            self.closing = true;
            RelayStep { records, status: RelayStatus::Finished }
        } else {
            RelayStep { records, status: RelayStatus::Running }
        }
    }
}

} // verus!
