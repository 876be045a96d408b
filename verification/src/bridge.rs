//! The stream bridge: chunks arrive from the repository as they come, bytes
//! leave through a blocking-style `read`.
//!
//! The bridge owns a queue of the chunks that were pushed and not yet read,
//! and a cursor into the first of them. It never reorders, drops or invents a
//! byte, and a failure of the stream is reported by the very next `read`.

use std::collections::VecDeque;
use vstd::prelude::*;
use vstd::slice::slice_subrange;

verus! {

/// What a `read` found.
#[derive(Debug, PartialEq, Eq)]
pub enum Pull {
    /// That many bytes were copied to the front of the buffer.
    Bytes(usize),
    /// Nothing is queued and the stream has not ended: push the next chunk.
    Pending,
    /// Nothing is queued and the stream has ended.
    Ended,
    /// The stream failed, with this cause.
    Failed(String),
}

/// A [`StreamBridge`] as a mathematical value.
pub struct BridgeView {
    /// The unread bytes, chunk by chunk, in the order of arrival. No chunk is empty.
    pub chunks: Seq<Seq<u8>>,
    /// The cause, once the stream has failed.
    pub failure: Option<Seq<char>>,
    /// Whether the stream has ended.
    pub ended: bool,
}

impl BridgeView {
    /// The unread bytes as one sequence.
    pub open spec fn pending(self) -> Seq<u8> {
        self.chunks.flatten()
    }

    /// Whether the bridge still takes chunks: the stream has neither failed nor ended.
    pub open spec fn live(self) -> bool {
        self.failure is None && !self.ended
    }

    /// The bridge after `chunk` arrived. An empty chunk, or one that arrives
    /// after the end or a failure of the stream, leaves it as it was.
    pub open spec fn pushed(self, chunk: Seq<u8>) -> BridgeView {
        if self.live() && chunk.len() > 0 {
            BridgeView { chunks: self.chunks.push(chunk), ..self }
        } else {
            self
        }
    }

    /// The bridge after the stream failed with `cause`. The first failure stays.
    pub open spec fn failed(self, cause: Seq<char>) -> BridgeView {
        if self.live() {
            BridgeView { failure: Some(cause), ..self }
        } else {
            self
        }
    }

    /// The bridge after the stream ended.
    pub open spec fn closed(self) -> BridgeView {
        if self.live() {
            BridgeView { ended: true, ..self }
        } else {
            self
        }
    }

    /// How many bytes a `read` into a buffer of `room` bytes takes: as many
    /// as fit, from the first chunk only, and none once the stream has failed.
    pub open spec fn taken(self, room: nat) -> nat {
        if self.failure is Some || self.chunks.len() == 0 {
            0
        } else if room < self.chunks[0].len() {
            room
        } else {
            self.chunks[0].len()
        }
    }

    /// The bridge after a `read` into a buffer of `room` bytes.
    pub open spec fn advanced(self, room: nat) -> BridgeView {
        let n = self.taken(room);
        if self.failure is Some || self.chunks.len() == 0 {
            self
        } else if n == self.chunks[0].len() {
            BridgeView { chunks: self.chunks.skip(1), ..self }
        } else {
            BridgeView { chunks: self.chunks.update(0, self.chunks[0].skip(n as int)), ..self }
        }
    }
}

/// Taking a prefix of the first chunk is taking a prefix of the unread bytes.
pub proof fn lemma_first_chunk_leads(chunks: Seq<Seq<u8>>, n: int)
    requires
        chunks.len() > 0,
        0 <= n <= chunks[0].len(),
    ensures
        chunks.flatten().take(n) == chunks[0].take(n),
        n == chunks[0].len() ==> chunks.skip(1).flatten() == chunks.flatten().skip(n),
        n < chunks[0].len() ==> chunks.update(0, chunks[0].skip(n)).flatten()
            == chunks.flatten().skip(n),
{
    let rest = chunks.drop_first();
    assert(chunks.flatten() == chunks[0] + rest.flatten());
    assert(chunks.flatten().take(n) =~= chunks[0].take(n));
    if n == chunks[0].len() {
        assert(chunks.skip(1) =~= rest);
        assert(rest.flatten() =~= chunks.flatten().skip(n));
    } else {
        let cut = chunks.update(0, chunks[0].skip(n));
        assert(cut.drop_first() =~= rest);
        assert(cut.flatten() == cut[0] + rest.flatten());
        assert(cut.flatten() =~= chunks.flatten().skip(n));
    }
}

/// The adapter between a stream that delivers chunks and a reader that pulls bytes.
pub struct StreamBridge {
    queue: VecDeque<Vec<u8>>,
    cursor: usize,
    failure: Option<String>,
    ended: bool,
}

impl View for StreamBridge {
    type V = BridgeView;

    closed spec fn view(&self) -> BridgeView {
        BridgeView {
            chunks: Seq::new(
                self.queue@.len(),
                |i: int|
                    if i == 0 {
                        self.queue@[0]@.skip(self.cursor as int)
                    } else {
                        self.queue@[i]@
                    },
            ),
            failure: match self.failure {
                Some(cause) => Some(cause@),
                None => None,
            },
            ended: self.ended,
        }
    }
}

impl StreamBridge {
    /// No queued chunk is empty, and the cursor stands inside the first one.
    pub closed spec fn wf(&self) -> bool {
        &&& forall|i: int| 0 <= i < self.queue@.len() ==> (#[trigger] self.queue@[i])@.len() > 0
        &&& self.queue@.len() > 0 ==> self.cursor < self.queue@[0]@.len()
        &&& self.queue@.len() == 0 ==> self.cursor == 0
    }

    /// In a well-formed bridge every unread chunk holds at least one byte.
    pub proof fn lemma_chunks_hold_bytes(&self)
        requires
            self.wf(),
        ensures
            forall|i: int| 0 <= i < self@.chunks.len() ==> (#[trigger] self@.chunks[i]).len() > 0,
            self@.chunks.len() == 0 <==> self@.pending().len() == 0,
    {
        let chunks = self@.chunks;
        assert forall|i: int| 0 <= i < chunks.len() implies (#[trigger] chunks[i]).len() > 0 by {
            assert(self.queue@[i]@.len() > 0);
        }
        if chunks.len() > 0 {
            assert(chunks.flatten() == chunks[0] + chunks.drop_first().flatten());
        }
    }

    /// A bridge on a stream from which nothing has arrived yet.
    pub fn new() -> (bridge: Self)
        ensures
            bridge.wf(),
            bridge@ == (BridgeView { chunks: Seq::empty(), failure: None, ended: false }),
    {
        let bridge = StreamBridge {
            queue: VecDeque::new(),
            cursor: 0,
            failure: None,
            ended: false,
        };
        assert(bridge@.chunks =~= Seq::empty());
        bridge
    }

    /// Queues the next chunk of the stream behind those already waiting.
    pub fn push_chunk(&mut self, chunk: Vec<u8>)
        requires
            old(self).wf(),
        ensures
            final(self).wf(),
            final(self)@ == old(self)@.pushed(chunk@),
            old(self)@.live() ==> final(self)@.pending() == old(self)@.pending() + chunk@,
    {
        proof {
            old(self)@.chunks.lemma_flatten_push(chunk@);
        }
        if self.failure.is_none() && !self.ended && chunk.len() > 0 {
            self.queue.push_back(chunk);
            assert(self@.chunks =~~= old(self)@.chunks.push(chunk@));
        } else if chunk.len() == 0 {
            assert(old(self)@.pending() + chunk@ =~= old(self)@.pending());
        }
    }

    /// Records that the stream failed. The next `read` reports it.
    pub fn fail(&mut self, cause: String)
        requires
            old(self).wf(),
        ensures
            final(self).wf(),
            final(self)@ == old(self)@.failed(cause@),
    {
        if self.failure.is_none() && !self.ended {
            self.failure = Some(cause);
        }
    }

    /// Records that the stream ended: once the queue is read, `read` reports the end.
    pub fn end(&mut self)
        requires
            old(self).wf(),
        ensures
            final(self).wf(),
            final(self)@ == old(self)@.closed(),
    {
        if self.failure.is_none() {
            self.ended = true;
        }
    }

    /// Copies unread bytes to the front of `buffer`: as many as fit, in the
    /// order in which they arrived, and from one chunk only.
    ///
    /// A failure of the stream is reported before any byte that is still
    /// queued, and again by every later call; the end of the stream only once
    /// the queue is read.
    pub fn read(&mut self, buffer: &mut Vec<u8>) -> (pull: Pull)
        requires
            old(self).wf(),
        ensures
            final(self).wf(),
            final(self)@ == old(self)@.advanced(old(buffer)@.len()),
            final(buffer)@.len() == old(buffer)@.len(),
            match pull {
                Pull::Failed(cause) => old(self)@.failure == Some(cause@) && final(buffer)@ == old(
                    buffer,
                )@,
                Pull::Pending => old(self)@.failure is None && old(self)@.chunks.len() == 0
                    && !old(self)@.ended && final(buffer)@ == old(buffer)@,
                Pull::Ended => old(self)@.failure is None && old(self)@.chunks.len() == 0 && old(
                    self,
                )@.ended && final(buffer)@ == old(buffer)@,
                Pull::Bytes(n) => {
                    &&& old(self)@.failure is None
                    &&& old(self)@.chunks.len() > 0
                    &&& n == old(self)@.taken(old(buffer)@.len())
                    &&& final(buffer)@ == old(self)@.chunks[0].take(n as int) + old(buffer)@.skip(
                        n as int,
                    )
                    &&& final(buffer)@.take(n as int) == old(self)@.pending().take(n as int)
                    &&& final(self)@.pending() == old(self)@.pending().skip(n as int)
                },
            },
    {
        if let Some(cause) = &self.failure {
            return Pull::Failed(cause.clone());
        }
        if self.queue.len() == 0 {
            assert(self@.chunks.len() == 0);
            return if self.ended {
                Pull::Ended
            } else {
                Pull::Pending
            };
        }
        let ghost before = self@;
        let ghost room = buffer@.len();
        let left: usize = self.queue[0].len() - self.cursor;
        let n: usize = if buffer.len() < left {
            buffer.len()
        } else {
            left
        };
        assert(before.chunks[0] == self.queue@[0]@.skip(self.cursor as int));
        assert(n == before.taken(room));
        let mut i: usize = 0;
        while i < n
            invariant
                0 <= i <= n,
                n <= buffer@.len(),
                buffer@.len() == room == old(buffer)@.len(),
                self.queue@.len() > 0,
                self.cursor + n <= self.queue@[0]@.len() <= usize::MAX,
                *self == *old(self),
                before.chunks.len() > 0,
                before.chunks[0] == self.queue@[0]@.skip(self.cursor as int),
                buffer@ =~= before.chunks[0].take(i as int) + old(buffer)@.skip(i as int),
            decreases n - i,
        {
            let byte: u8 = self.queue[0][self.cursor + i];
            assert(byte == before.chunks[0][i as int]);
            buffer.set(i, byte);
            i = i + 1;
        }
        if n == left {
            let _ = self.queue.pop_front();
            self.cursor = 0;
            assert(self@.chunks =~~= before.chunks.skip(1));
        } else {
            self.cursor = self.cursor + n;
            assert(self@.chunks =~~= before.chunks.update(0, before.chunks[0].skip(n as int)));
        }
        proof {
            lemma_first_chunk_leads(before.chunks, n as int);
            assert(buffer@.take(n as int) =~= before.chunks[0].take(n as int));
        }
        Pull::Bytes(n)
    }

    /// Reads all that is queued into `sink`, through `scratch`, and tells why
    /// it stopped: the stream failed, it ended, or the next chunk is awaited.
    ///
    /// Unless the stream has failed, `sink` grows by exactly the unread bytes,
    /// in their order, and the queue is left empty.
    pub fn drain_into(&mut self, scratch: &mut Vec<u8>, sink: &mut Vec<u8>) -> (last: Pull)
        requires
            old(self).wf(),
            old(scratch)@.len() > 0,
        ensures
            final(self).wf(),
            final(scratch)@.len() == old(scratch)@.len(),
            match last {
                Pull::Bytes(_) => false,
                Pull::Failed(cause) => {
                    &&& old(self)@.failure == Some(cause@)
                    &&& final(self)@ == old(self)@
                    &&& final(sink)@ == old(sink)@
                },
                Pull::Pending => {
                    &&& old(self)@.failure is None
                    &&& !old(self)@.ended
                    &&& final(self)@ == (BridgeView { chunks: Seq::empty(), ..old(self)@ })
                    &&& final(sink)@ == old(sink)@ + old(self)@.pending()
                },
                Pull::Ended => {
                    &&& old(self)@.failure is None
                    &&& old(self)@.ended
                    &&& final(self)@ == (BridgeView { chunks: Seq::empty(), ..old(self)@ })
                    &&& final(sink)@ == old(sink)@ + old(self)@.pending()
                },
            },
    {
        loop
            invariant
                self.wf(),
                scratch@.len() == old(scratch)@.len() > 0,
                self@.failure == old(self)@.failure,
                self@.ended == old(self)@.ended,
                self@.failure is Some ==> self@ == old(self)@ && sink@ == old(sink)@,
                sink@ + self@.pending() == old(sink)@ + old(self)@.pending(),
            decreases self@.pending().len(),
        {
            let ghost before = self@;
            let ghost gathered = sink@;
            proof {
                self.lemma_chunks_hold_bytes();
            }
            match self.read(scratch) {
                Pull::Bytes(n) => {
                    let fresh = slice_subrange(scratch.as_slice(), 0, n);
                    sink.extend_from_slice(fresh);
                    proof {
                        assert(n > 0);
                        assert(fresh@ == before.pending().take(n as int));
                        assert(before.pending() =~= before.pending().take(n as int)
                            + before.pending().skip(n as int));
                        assert(sink@ + self@.pending() =~= gathered + before.pending());
                    }
                },
                last => {
                    proof {
                        if last !is Failed {
                            assert(before.chunks =~= Seq::empty());
                            assert(before.pending() =~= Seq::empty());
                            assert(sink@ =~= old(sink)@ + old(self)@.pending());
                        }
                    }
                    return last;
                },
            }
        }
    }
}

} // verus!
