//! What the decoder does with a whole stream of chunks, and the laws that
//! hold of it.

use vstd::prelude::*;
use crate::decoder::{
    admitted, filled, first_marker, lemma_first_marker, next_buffer, outcome, ChunkOutcome,
};
use crate::measurement::{decode, frame_valid, parse_frame, Measurement, RESPONSE_SIZE, START_BIT};

verus! {

/// The state of a decoder after a stream: what is left in its buffer and
/// the readings it has delivered, in order.
pub struct Trace {
    pub buffer: Seq<u8>,
    pub delivered: Seq<Measurement>,
}

/// The readings that one chunk delivers: one or none.
pub open spec fn emitted(buf: Seq<u8>, data: Seq<u8>) -> Seq<Measurement> {
    match outcome(buf, data) {
        ChunkOutcome::Measured(m) => seq![m],
        _ => Seq::empty(),
    }
}

/// Handles the chunks one after the other, starting from the buffer `buf`.
pub open spec fn run(buf: Seq<u8>, chunks: Seq<Seq<u8>>) -> Trace
    decreases chunks.len(),
{
    if chunks.len() == 0 {
        Trace { buffer: buf, delivered: Seq::empty() }
    } else {
        let rest = run(next_buffer(buf, chunks[0]), chunks.skip(1));
        Trace { buffer: rest.buffer, delivered: emitted(buf, chunks[0]) + rest.delivered }
    }
}

/// All bytes of the chunks, in order.
pub open spec fn joined(chunks: Seq<Seq<u8>>) -> Seq<u8>
    decreases chunks.len(),
{
    if chunks.len() == 0 {
        Seq::empty()
    } else {
        chunks[0] + joined(chunks.skip(1))
    }
}

/// What a complete frame delivers once it has been collected.
pub open spec fn frame_yield(f: Seq<u8>) -> Seq<Measurement> {
    match decode(f) {
        Some(m) => seq![m],
        None => Seq::empty(),
    }
}

/// Chunks without bytes change nothing.
pub proof fn lemma_run_empty_chunks(buf: Seq<u8>, chunks: Seq<Seq<u8>>)
    requires
        buf.len() < RESPONSE_SIZE,
        joined(chunks).len() == 0,
    ensures
        run(buf, chunks) == (Trace { buffer: buf, delivered: Seq::empty() }),
    decreases chunks.len(),
{
    if chunks.len() > 0 {
        let c = chunks[0];
        assert(c.len() == 0);
        assert(filled(buf, c) =~= buf);
        lemma_run_empty_chunks(buf, chunks.skip(1));
        assert(run(buf, chunks).delivered =~= Seq::<Measurement>::empty());
    }
}

/// Running two streams one after the other is running them as one.
pub proof fn lemma_run_concat(buf: Seq<u8>, a: Seq<Seq<u8>>, b: Seq<Seq<u8>>)
    ensures
        run(buf, a + b).buffer == run(run(buf, a).buffer, b).buffer,
        run(buf, a + b).delivered == run(buf, a).delivered + run(run(buf, a).buffer, b).delivered,
    decreases a.len(),
{
    if a.len() == 0 {
        assert(a + b =~= b);
        assert(run(buf, a).delivered + run(buf, b).delivered =~= run(buf, b).delivered);
    } else {
        assert((a + b)[0] == a[0]);
        assert((a + b).skip(1) =~= a.skip(1) + b);
        let nb = next_buffer(buf, a[0]);
        lemma_run_concat(nb, a.skip(1), b);
        let ra = run(nb, a.skip(1));
        let rb = run(ra.buffer, b);
        assert(emitted(buf, a[0]) + (ra.delivered + rb.delivered) =~= (emitted(buf, a[0])
            + ra.delivered) + rb.delivered);
    }
}

/// A frame that begins with the start marker and arrives in pieces, of
/// which `n` bytes are already buffered, is collected whole whatever the
/// pieces are: the decoder ends empty and has delivered what the frame
/// decodes to.
pub proof fn lemma_frame_in_pieces(f: Seq<u8>, n: int, chunks: Seq<Seq<u8>>)
    requires
        f.len() == RESPONSE_SIZE,
        f[0] == START_BIT,
        0 <= n < RESPONSE_SIZE,
        joined(chunks) == f.skip(n),
    ensures
        run(f.take(n), chunks) == (Trace { buffer: Seq::empty(), delivered: frame_yield(f) }),
    decreases chunks.len(),
{
    let buf = f.take(n);
    assert(chunks.len() > 0) by {
        assert(joined(chunks).len() == RESPONSE_SIZE - n);
    }
    let c = chunks[0];
    let rest = chunks.skip(1);
    let tail = joined(rest);
    assert(c.len() + tail.len() == RESPONSE_SIZE - n) by {
        assert((c + tail).len() == c.len() + tail.len());
    }
    // The first chunk is the next piece of the frame.
    assert forall|i: int| 0 <= i < c.len() implies c[i] == f[n + i] by {
        assert((c + tail)[i] == c[i]);
    }
    // Nothing of it is thrown away: either the frame has started, or the
    // piece begins with the frame's marker. And all of it fits.
    let k = n + c.len();
    assert(filled(buf, c) =~= f.take(k));
    // The other chunks are the rest of the frame.
    assert(tail =~= f.skip(k)) by {
        assert forall|i: int| 0 <= i < tail.len() implies tail[i] == f.skip(k)[i] by {
            assert((c + tail)[c.len() + i] == tail[i]);
        }
    }
    if k < RESPONSE_SIZE {
        lemma_frame_in_pieces(f, k, rest);
    } else {
        assert(f.take(k) =~= f);
        lemma_run_empty_chunks(Seq::empty(), rest);
    }
}

/// Chunk-boundary independence: a valid frame that begins with the start
/// marker yields the same single reading however it is cut into chunks,
/// byte by byte or all at once, and leaves the decoder empty.
pub proof fn lemma_chunking_independent(f: Seq<u8>, chunks: Seq<Seq<u8>>)
    requires
        frame_valid(f),
        f[0] == START_BIT,
        joined(chunks) == f,
    ensures
        run(Seq::empty(), chunks).delivered == seq![parse_frame(f)],
        run(Seq::empty(), chunks).buffer == Seq::<u8>::empty(),
{
    assert(f.skip(0) =~= f);
    lemma_frame_in_pieces(f, 0, chunks);
}

/// Resynchronisation: a frame that fails its checksum, followed by a valid
/// frame, delivers exactly the valid frame's reading, provided that both
/// begin with the start marker and that no chunk holds bytes of both.
pub proof fn lemma_resynchronises(
    bad: Seq<u8>,
    good: Seq<u8>,
    first: Seq<Seq<u8>>,
    second: Seq<Seq<u8>>,
)
    requires
        bad.len() == RESPONSE_SIZE,
        bad[0] == START_BIT,
        !frame_valid(bad),
        frame_valid(good),
        good[0] == START_BIT,
        joined(first) == bad,
        joined(second) == good,
    ensures
        run(Seq::empty(), first + second).delivered == seq![parse_frame(good)],
        run(Seq::empty(), first + second).buffer == Seq::<u8>::empty(),
{
    assert(bad.skip(0) =~= bad);
    lemma_frame_in_pieces(bad, 0, first);
    lemma_chunking_independent(good, second);
    lemma_run_concat(Seq::empty(), first, second);
}

} // verus!
