//! Frame reassembly: raw transport chunks are appended to a bounded buffer
//! and every complete newline-terminated line is extracted, trimmed and
//! yielded as a frame. A chunk that would push the buffer past its ceiling
//! is refused before any of its frames are emitted.

use vstd::prelude::*;

use crate::bytes::{append_bytes, trim_bytes, trimmed};

verus! {

/// Index of the first line feed in `s`, if any.
pub open spec fn first_nl(s: Seq<u8>) -> Option<nat>
    decreases s.len(),
{
    if s.len() == 0 {
        None
    } else if s[0] == 10 {
        Some(0 as nat)
    } else {
        match first_nl(s.drop_first()) {
            None => None,
            Some(k) => Some(k + 1),
        }
    }
}

/// The trimmed, non-empty lines of every complete (newline-terminated)
/// line in `s`, in order.
pub open spec fn frame_seq(s: Seq<u8>) -> Seq<Seq<u8>>
    decreases s.len(),
    via frame_seq_dec
{
    match first_nl(s) {
        None => Seq::empty(),
        Some(j) => {
            let line = trimmed(s.subrange(0, j as int));
            let rest = s.subrange(j + 1 as int, s.len() as int);
            if line.len() > 0 {
                seq![line] + frame_seq(rest)
            } else {
                frame_seq(rest)
            }
        },
    }
}

/// The bytes of `s` after its last line feed: what stays buffered once all
/// complete lines have been extracted.
pub open spec fn tail_after_frames(s: Seq<u8>) -> Seq<u8>
    decreases s.len(),
    via tail_after_frames_dec
{
    match first_nl(s) {
        None => s,
        Some(j) => tail_after_frames(s.subrange(j + 1 as int, s.len() as int)),
    }
}

#[via_fn]
proof fn frame_seq_dec(s: Seq<u8>) {
    lemma_first_nl(s);
}

#[via_fn]
proof fn tail_after_frames_dec(s: Seq<u8>) {
    lemma_first_nl(s);
}

pub proof fn lemma_first_nl(s: Seq<u8>)
    ensures
        match first_nl(s) {
            Some(j) => j < s.len() && s[j as int] == 10 && forall|k: int| 0 <= k < j ==> s[k] != 10,
            None => forall|k: int| 0 <= k < s.len() ==> s[k] != 10,
        },
    decreases s.len(),
{
    if s.len() > 0 && s[0] != 10 {
        let t = s.drop_first();
        lemma_first_nl(t);
        match first_nl(t) {
            Some(k) => {
                assert(s[k + 1 as int] == t[k as int]);
                assert(forall|m: int| 1 <= m < k + 1 ==> s[m] == t[m - 1]);
            },
            None => {
                assert(forall|m: int| 1 <= m < s.len() ==> s[m] == t[m - 1]);
            },
        }
    }
}

proof fn lemma_first_nl_is(s: Seq<u8>, j: int)
    requires
        0 <= j < s.len(),
        s[j] == 10,
        forall|k: int| 0 <= k < j ==> s[k] != 10,
    ensures
        first_nl(s) == Some(j as nat),
    decreases j,
{
    if j > 0 {
        lemma_first_nl_is(s.drop_first(), j - 1);
    }
}

proof fn lemma_first_nl_concat(a: Seq<u8>, b: Seq<u8>)
    ensures
        first_nl(a + b) == match first_nl(a) {
            Some(j) => Some(j),
            None => match first_nl(b) {
                Some(k) => Some((a.len() + k) as nat),
                None => None::<nat>,
            },
        },
    decreases a.len(),
{
    lemma_first_nl(a);
    lemma_first_nl(b);
    lemma_first_nl(a + b);
    match first_nl(a) {
        Some(j) => {
            assert((a + b)[j as int] == 10);
            lemma_first_nl_is(a + b, j as int);
        },
        None => {
            match first_nl(b) {
                Some(k) => {
                    assert((a + b)[a.len() + k as int] == 10);
                    assert(forall|m: int|
                        0 <= m < a.len() + k ==> (a + b)[m] == (if m < a.len() {
                            a[m]
                        } else {
                            b[m - a.len()]
                        }));
                    lemma_first_nl_is(a + b, a.len() + k as int);
                },
                None => {
                    if first_nl(a + b) is Some {
                        let j = first_nl(a + b).unwrap();
                        assert((a + b)[j as int] == 10);
                    }
                },
            }
        },
    }
}

/// After all complete lines are removed, no line feed remains buffered.
pub proof fn lemma_tail_no_nl(s: Seq<u8>)
    ensures
        first_nl(tail_after_frames(s)) is None,
    decreases s.len(),
{
    match first_nl(s) {
        None => {},
        Some(j) => {
            lemma_first_nl(s);
            lemma_tail_no_nl(s.subrange(j + 1 as int, s.len() as int));
        },
    }
}

/// Splitting a byte stream at any point changes neither the frames nor the
/// buffered remainder: processing `a` and then `b` on what stayed buffered
/// equals processing `a + b` at once.
pub proof fn lemma_frames_concat(a: Seq<u8>, b: Seq<u8>)
    ensures
        frame_seq(a + b) == frame_seq(a) + frame_seq(tail_after_frames(a) + b),
        tail_after_frames(a + b) == tail_after_frames(tail_after_frames(a) + b),
    decreases a.len(),
{
    lemma_first_nl_concat(a, b);
    match first_nl(a) {
        None => {
            assert(tail_after_frames(a) == a);
            assert(frame_seq(a) =~= Seq::<Seq<u8>>::empty());
            assert(frame_seq(a + b) =~= Seq::<Seq<u8>>::empty() + frame_seq(a + b));
        },
        Some(j) => {
            lemma_first_nl(a);
            let line = trimmed(a.subrange(0, j as int));
            assert((a + b).subrange(0, j as int) =~= a.subrange(0, j as int));
            let arest = a.subrange(j + 1 as int, a.len() as int);
            assert((a + b).subrange(j + 1 as int, (a + b).len() as int) =~= arest + b);
            lemma_frames_concat(arest, b);
            assert(tail_after_frames(a) == tail_after_frames(arest));
            if line.len() > 0 {
                assert(seq![line] + (frame_seq(arest) + frame_seq(tail_after_frames(arest) + b))
                    =~= (seq![line] + frame_seq(arest)) + frame_seq(tail_after_frames(arest) + b));
            }
        },
    }
}

/// Frames collected by feeding `chunks` one at a time into a reassembler
/// whose buffer holds `buf`, with no size ceiling applied.
pub open spec fn run_frames(chunks: Seq<Seq<u8>>, buf: Seq<u8>) -> Seq<Seq<u8>>
    decreases chunks.len(),
{
    if chunks.len() == 0 {
        Seq::empty()
    } else {
        frame_seq(buf + chunks.first()) + run_frames(
            chunks.drop_first(),
            tail_after_frames(buf + chunks.first()),
        )
    }
}

proof fn lemma_run_frames_flatten(chunks: Seq<Seq<u8>>, buf: Seq<u8>)
    requires
        first_nl(buf) is None,
    ensures
        run_frames(chunks, buf) == frame_seq(buf + chunks.flatten()),
    decreases chunks.len(),
{
    if chunks.len() == 0 {
        assert(buf + chunks.flatten() =~= buf);
        assert(frame_seq(buf) =~= Seq::<Seq<u8>>::empty());
    } else {
        let c = chunks.first();
        let b1 = tail_after_frames(buf + c);
        lemma_tail_no_nl(buf + c);
        lemma_run_frames_flatten(chunks.drop_first(), b1);
        lemma_frames_concat(buf + c, chunks.drop_first().flatten());
        assert(buf + chunks.flatten() =~= (buf + c) + chunks.drop_first().flatten());
    }
}

/// However a byte stream is split into chunks, feeding the chunks in order
/// yields exactly the frames of the whole stream, in the same order.
pub proof fn lemma_chunking_invariant(chunks: Seq<Seq<u8>>)
    ensures
        run_frames(chunks, Seq::empty()) == frame_seq(chunks.flatten()),
{
    lemma_run_frames_flatten(chunks, Seq::empty());
    assert(Seq::empty() + chunks.flatten() =~= chunks.flatten());
}

/// Refusal to append a chunk that would push the buffer past its ceiling.
#[derive(Debug, PartialEq, Eq, Structural)]
pub struct BufferOverflow;

/// Accumulates transport chunks and extracts complete, trimmed frames,
/// never buffering more than `ceiling` bytes.
pub struct FrameReassembler {
    buf: Vec<u8>,
    ceiling: usize,
}

/// First line-feed position in `s`, as the executable counterpart of
/// [`first_nl`].
fn find_nl(s: &[u8]) -> (r: Option<usize>)
    ensures
        match r {
            Some(j) => first_nl(s@) == Some(j as nat),
            None => first_nl(s@) is None,
        },
{
    let mut i: usize = 0;
    while i < s.len()
        invariant
            i <= s@.len(),
            forall|k: int| 0 <= k < i ==> s@[k] != 10,
        decreases s@.len() - i,
    {
        if s[i] == 10 {
            proof {
                lemma_first_nl_is(s@, i as int);
            }
            return Some(i);
        }
        i += 1;
    }
    proof {
        lemma_first_nl(s@);
        if first_nl(s@) is Some {
            let j = first_nl(s@).unwrap();
            assert(s@[j as int] == 10);
        }
    }
    None
}

impl FrameReassembler {
    /// Bytes currently buffered: received but not yet terminated by a
    /// line feed.
    pub closed spec fn buffer(&self) -> Seq<u8> {
        self.buf@
    }

    /// The configured buffer-size ceiling.
    pub closed spec fn ceiling(&self) -> int {
        self.ceiling as int
    }

    /// The buffer never exceeds the ceiling.
    pub closed spec fn wf(&self) -> bool {
        self.buf@.len() <= self.ceiling
    }

    pub fn new(ceiling: usize) -> (r: Self)
        ensures
            r.buffer() == Seq::<u8>::empty(),
            r.ceiling() == ceiling as int,
            r.wf(),
    {
        FrameReassembler { buf: Vec::new(), ceiling }
    }

    /// Appends `chunk` and yields the trimmed, non-empty complete lines
    /// now available, keeping any unterminated remainder buffered. Fails,
    /// emitting no frame and buffering nothing, if the buffered bytes
    /// plus the chunk exceed the ceiling.
    pub fn feed(&mut self, chunk: &[u8]) -> (r: Result<Vec<Vec<u8>>, BufferOverflow>)
        requires
            old(self).wf(),
        ensures
            final(self).ceiling() == old(self).ceiling(),
            final(self).wf(),
            ({
                let total = old(self).buffer() + chunk@;
                match r {
                    Ok(frames) => total.len() <= old(self).ceiling() && frames@.map_values(
                        |f: Vec<u8>| f@,
                    ) == frame_seq(total) && final(self).buffer() == tail_after_frames(total),
                    Err(_) => total.len() > old(self).ceiling() && final(self).buffer() == old(
                        self,
                    ).buffer(),
                }
            }),
    {
        if chunk.len() > self.ceiling - self.buf.len() {
            return Err(BufferOverflow);
        }
        append_bytes(&mut self.buf, chunk);
        let ghost total = self.buf@;
        let mut frames: Vec<Vec<u8>> = Vec::new();
        proof {
            assert(frames@.map_values(|f: Vec<u8>| f@) =~= Seq::<Seq<u8>>::empty());
        }
        let mut nl = find_nl(self.buf.as_slice());
        while nl.is_some()
            invariant
                self.buf@.len() <= self.ceiling,
                self.ceiling == old(self).ceiling,
                frame_seq(total) == frames@.map_values(|f: Vec<u8>| f@) + frame_seq(self.buf@),
                tail_after_frames(total) == tail_after_frames(self.buf@),
                match nl {
                    Some(j) => first_nl(self.buf@) == Some(j as nat),
                    None => first_nl(self.buf@) is None,
                },
            decreases self.buf@.len(),
        {
            let j = nl.unwrap();
            proof {
                lemma_first_nl(self.buf@);
            }
            let line = trim_bytes(vstd::slice::slice_subrange(self.buf.as_slice(), 0, j));
            let rest = vstd::slice::slice_to_vec(vstd::slice::slice_subrange(
                self.buf.as_slice(),
                j + 1,
                self.buf.len(),
            ));
            self.buf = rest;
            if line.len() > 0 {
                let ghost fs = frames@.map_values(|f: Vec<u8>| f@);
                frames.push(line);
                proof {
                    assert(frames@.map_values(|f: Vec<u8>| f@) =~= fs + seq![line@]);
                    assert(fs + (seq![line@] + frame_seq(self.buf@)) =~= (fs + seq![line@])
                        + frame_seq(self.buf@));
                }
            }
            nl = find_nl(self.buf.as_slice());
        }
        proof {
            assert(frame_seq(self.buf@) =~= Seq::<Seq<u8>>::empty());
            assert(frames@.map_values(|f: Vec<u8>| f@) + Seq::<Seq<u8>>::empty()
                =~= frames@.map_values(|f: Vec<u8>| f@));
        }
        Ok(frames)
    }
}

} // verus!
