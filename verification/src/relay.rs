//! Bounded media relay: an ordered, lossless pipeline of byte chunks.
//!
//! Chunks arrive from an ingestion source and leave toward a consumer
//! process's input stream. The buffer is bounded: a full buffer refuses the
//! next chunk, and the producer suspends until the consumer drains one —
//! backpressure instead of loss. The two ghost logs record everything ever
//! submitted and everything ever delivered, so order and content
//! preservation are stated over whole histories, not single calls.

use vstd::prelude::*;

verus! {

/// Default capacity of the relay buffer, in chunks.
pub const DEFAULT_RELAY_CAPACITY: usize = 10;

/// A bounded FIFO of opaque byte chunks between the ingestion source and the
/// consumer-process writer.
pub struct RelayBuffer {
    chunks: Vec<Vec<u8>>,
    capacity: usize,
    pushed: Ghost<Seq<Seq<u8>>>,
    popped: Ghost<Seq<Seq<u8>>>,
}

impl RelayBuffer {
    /// The chunks currently buffered, oldest first.
    pub closed spec fn buffered(&self) -> Seq<Seq<u8>> {
        self.chunks@.map_values(|c: Vec<u8>| c@)
    }

    /// The bound on how many chunks may sit in the buffer at once.
    pub closed spec fn cap(&self) -> int {
        self.capacity as int
    }

    /// Every chunk the producer ever submitted, in submission order.
    pub closed spec fn submitted(&self) -> Seq<Seq<u8>> {
        self.pushed@
    }

    /// Every chunk the consumer side ever drained, in delivery order.
    pub closed spec fn delivered(&self) -> Seq<Seq<u8>> {
        self.popped@
    }

    /// Well-formed: the buffer respects its bound, and the submission history
    /// is exactly the delivery history followed by what is still buffered —
    /// nothing skipped, nothing duplicated, nothing reordered.
    pub open spec fn wf(&self) -> bool {
        &&& 1 <= self.cap()
        &&& self.buffered().len() <= self.cap()
        &&& self.submitted() == self.delivered() + self.buffered()
    }

    /// Whether the buffer has room for one more chunk.
    pub open spec fn can_accept(&self) -> bool {
        self.buffered().len() < self.cap()
    }

    /// An empty buffer with the given bound.
    pub fn new(capacity: usize) -> (buf: RelayBuffer)
        requires
            1 <= capacity,
        ensures
            buf.wf(),
            buf.cap() == capacity,
            buf.submitted() == Seq::<Seq<u8>>::empty(),
            buf.delivered() == Seq::<Seq<u8>>::empty(),
            buf.buffered() == Seq::<Seq<u8>>::empty(),
    {
        let buf = RelayBuffer {
            chunks: Vec::new(),
            capacity,
            pushed: Ghost(Seq::empty()),
            popped: Ghost(Seq::empty()),
        };
        proof {
            assert(buf.buffered() =~= Seq::<Seq<u8>>::empty());
            assert(buf.submitted() =~= buf.delivered() + buf.buffered());
        }
        buf
    }

    /// Offer one chunk. A buffer with room takes it at the back; a full one
    /// hands it back untouched, and the producer must suspend until a chunk
    /// is drained — data is never dropped.
    pub fn try_push(&mut self, chunk: Vec<u8>) -> (result: Result<(), Vec<u8>>)
        requires
            old(self).wf(),
        ensures
            final(self).wf(),
            final(self).cap() == old(self).cap(),
            final(self).delivered() == old(self).delivered(),
            match result {
                Ok(()) => {
                    &&& old(self).can_accept()
                    &&& final(self).buffered() == old(self).buffered().push(chunk@)
                    &&& final(self).submitted() == old(self).submitted().push(chunk@)
                },
                Err(refused) => {
                    &&& !old(self).can_accept()
                    &&& refused == chunk
                    &&& final(self).buffered() == old(self).buffered()
                    &&& final(self).submitted() == old(self).submitted()
                },
            },
    {
        if self.chunks.len() < self.capacity {
            let ghost entry = chunk@;
            self.chunks.push(chunk);
            self.pushed = Ghost(self.pushed@.push(entry));
            proof {
                assert(self.buffered() =~= old(self).buffered().push(entry));
                assert(self.submitted() =~= self.delivered() + self.buffered());
            }
            Ok(())
        } else {
            Err(chunk)
        }
    }

    /// Drain the oldest buffered chunk, if any.
    pub fn pop(&mut self) -> (result: Option<Vec<u8>>)
        requires
            old(self).wf(),
        ensures
            final(self).wf(),
            final(self).cap() == old(self).cap(),
            final(self).submitted() == old(self).submitted(),
            match result {
                Some(chunk) => {
                    &&& old(self).buffered().len() > 0
                    &&& chunk@ == old(self).buffered().first()
                    &&& final(self).buffered() == old(self).buffered().drop_first()
                    &&& final(self).delivered() == old(self).delivered().push(chunk@)
                },
                None => {
                    &&& old(self).buffered().len() == 0
                    &&& final(self).buffered() == old(self).buffered()
                    &&& final(self).delivered() == old(self).delivered()
                },
            },
    {
        if self.chunks.len() == 0 {
            None
        } else {
            let chunk = self.chunks.remove(0);
            self.popped = Ghost(self.popped@.push(chunk@));
            proof {
                assert(self.buffered() =~= old(self).buffered().drop_first());
                assert(self.submitted() =~= self.delivered() + self.buffered());
            }
            Some(chunk)
        }
    }

    /// How many chunks sit in the buffer now.
    pub fn len(&self) -> (n: usize)
        ensures
            n == self.buffered().len(),
    {
        self.chunks.len()
    }
}

/// The byte stream a sequence of chunks denotes: their concatenation in order.
pub open spec fn concat_chunks(chunks: Seq<Seq<u8>>) -> Seq<u8>
    decreases chunks.len(),
{
    if chunks.len() == 0 {
        Seq::empty()
    } else {
        concat_chunks(chunks.drop_last()) + chunks.last()
    }
}

/// Concatenation splits over appended chunk histories.
proof fn lemma_concat_chunks_app(a: Seq<Seq<u8>>, b: Seq<Seq<u8>>)
    ensures
        concat_chunks(a + b) == concat_chunks(a) + concat_chunks(b),
    decreases b.len(),
{
    if b.len() == 0 {
        assert(a + b =~= a);
        assert(concat_chunks(a) + concat_chunks(b) =~= concat_chunks(a));
    } else {
        assert((a + b).drop_last() =~= a + b.drop_last());
        lemma_concat_chunks_app(a, b.drop_last());
        assert(concat_chunks(a) + concat_chunks(b.drop_last()) + b.last() =~= concat_chunks(a)
            + concat_chunks(b));
    }
}

/// In every well-formed state, the byte stream submitted so far equals the
/// bytes already delivered to the consumer followed by the bytes still
/// buffered: the relay preserves both order and content.
pub proof fn lemma_stream_order_preserved(buf: RelayBuffer)
    requires
        buf.wf(),
    ensures
        concat_chunks(buf.submitted()) == concat_chunks(buf.delivered()) + concat_chunks(
            buf.buffered(),
        ),
{
    lemma_concat_chunks_app(buf.delivered(), buf.buffered());
}

/// What the consumer has seen so far is always an unbroken prefix of what
/// was submitted: no chunk is ever skipped, duplicated or reordered.
pub proof fn lemma_delivered_is_prefix(buf: RelayBuffer)
    requires
        buf.wf(),
    ensures
        buf.delivered() == buf.submitted().take(buf.delivered().len() as int),
{
    assert(buf.submitted().take(buf.delivered().len() as int) =~= buf.delivered());
}

/// Once the buffer has drained — the shutdown path after the producer side
/// closes — the consumer has been handed exactly the submitted chunks, and
/// so exactly the submitted bytes.
pub proof fn lemma_drained_stream_complete(buf: RelayBuffer)
    requires
        buf.wf(),
        buf.buffered().len() == 0,
    ensures
        buf.delivered() == buf.submitted(),
        concat_chunks(buf.delivered()) == concat_chunks(buf.submitted()),
{
    assert(buf.delivered() + buf.buffered() =~= buf.delivered());
}

/// Backpressure, refusing side: a buffer holding its full bound accepts no
/// further chunk, so a producer that has submitted `cap` undrained chunks is
/// suspended on the next one.
pub proof fn lemma_full_buffer_blocks(buf: RelayBuffer)
    requires
        buf.wf(),
        buf.buffered().len() == buf.cap(),
    ensures
        !buf.can_accept(),
{
}

/// Backpressure, releasing side: as soon as the consumer has drained at
/// least one chunk of a full buffer, the buffer accepts again.
pub proof fn lemma_drain_unblocks(buf: RelayBuffer)
    requires
        buf.wf(),
        buf.buffered().len() < buf.cap(),
    ensures
        buf.can_accept(),
{
}

} // verus!
