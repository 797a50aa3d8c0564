//! The streaming frame decoder: it takes the byte chunks that the serial
//! transport delivers, finds the start of a frame, collects one frame's
//! worth of bytes and decodes them.

use vstd::prelude::*;
use vstd::slice::slice_subrange;
use crate::frame_buffer::FrameBuffer;
use crate::measurement::{
    decode, frame_valid, parse_frame, Measurement, RESPONSE_SIZE, START_BIT,
};

verus! {

/// What one chunk led to.
#[derive(Debug, Clone, Copy, PartialEq, Eq, Structural)]
pub enum ChunkOutcome {
    /// The frame is not complete yet (or no frame has started).
    Incomplete,
    /// A full frame was collected and failed its checksum; it was dropped.
    Discarded,
    /// A full frame was collected and decoded.
    Measured(Measurement),
}

/// Index of the first start marker in `data`, or `data.len()` if there is
/// none.
pub open spec fn first_marker(data: Seq<u8>) -> int
    decreases data.len(),
{
    if data.len() == 0 {
        0
    } else if data[0] == START_BIT {
        0
    } else {
        1 + first_marker(data.skip(1))
    }
}

/// The part of a chunk that is considered at all: while no frame has
/// started, everything before the first start marker is thrown away.
pub open spec fn admitted(buf: Seq<u8>, data: Seq<u8>) -> Seq<u8> {
    if buf.len() == 0 {
        data.skip(first_marker(data))
    } else {
        data
    }
}

/// The buffer after the chunk has been appended: as much of the admitted
/// part as still fits in one frame; the rest is dropped.
pub open spec fn filled(buf: Seq<u8>, data: Seq<u8>) -> Seq<u8> {
    let a = admitted(buf, data);
    let room = RESPONSE_SIZE as int - buf.len();
    if a.len() <= room {
        buf + a
    } else {
        buf + a.take(room)
    }
}

/// The buffer that is left when the chunk has been handled: a partial frame
/// stays, a full one is gone whether it decoded or not.
pub open spec fn next_buffer(buf: Seq<u8>, data: Seq<u8>) -> Seq<u8> {
    let f = filled(buf, data);
    if f.len() < RESPONSE_SIZE {
        f
    } else {
        Seq::empty()
    }
}

/// The outcome of handling the chunk.
pub open spec fn outcome(buf: Seq<u8>, data: Seq<u8>) -> ChunkOutcome {
    let f = filled(buf, data);
    if f.len() < RESPONSE_SIZE {
        ChunkOutcome::Incomplete
    } else {
        match decode(f) {
            Some(m) => ChunkOutcome::Measured(m),
            None => ChunkOutcome::Discarded,
        }
    }
}

/// A buffer at rest holds less than a frame, and what it holds begins with
/// the start marker.
pub open spec fn well_formed(buf: Seq<u8>) -> bool {
    &&& buf.len() < RESPONSE_SIZE
    &&& buf.len() > 0 ==> buf[0] == START_BIT
}

/// `first_marker` lies within the chunk, points at a marker if it points at
/// anything, and nothing before it is a marker.
pub proof fn lemma_first_marker(data: Seq<u8>)
    ensures
        0 <= first_marker(data) <= data.len(),
        first_marker(data) < data.len() ==> data[first_marker(data)] == START_BIT,
        forall|i: int| 0 <= i < first_marker(data) ==> data[i] != START_BIT,
    decreases data.len(),
{
    if data.len() > 0 && data[0] != START_BIT {
        let rest = data.skip(1);
        lemma_first_marker(rest);
        assert forall|i: int| 0 <= i < first_marker(data) implies data[i] != START_BIT by {
            if i > 0 {
                assert(data[i] == rest[i - 1]);
            }
        }
    }
}

/// A position is the first marker when it holds a marker (or is the end)
/// and no earlier position does.
pub proof fn lemma_first_marker_unique(data: Seq<u8>, k: int)
    requires
        0 <= k <= data.len(),
        k < data.len() ==> data[k] == START_BIT,
        forall|i: int| 0 <= i < k ==> data[i] != START_BIT,
    ensures
        first_marker(data) == k,
{
    lemma_first_marker(data);
    let f = first_marker(data);
    if f < k {
        assert(data[f] == START_BIT);
    } else if k < f {
        assert(data[k] != START_BIT);
    }
}

/// Handling a chunk keeps the buffer well formed, whatever the chunk.
pub proof fn lemma_next_buffer_well_formed(buf: Seq<u8>, data: Seq<u8>)
    requires
        well_formed(buf),
    ensures
        well_formed(next_buffer(buf, data)),
{
    lemma_first_marker(data);
}

/// A reading only ever comes from a complete, accepted frame that begins
/// with the start marker.
pub proof fn lemma_measured_from_valid_frame(buf: Seq<u8>, data: Seq<u8>)
    requires
        well_formed(buf),
        outcome(buf, data) is Measured,
    ensures
        frame_valid(filled(buf, data)),
        filled(buf, data)[0] == START_BIT,
        outcome(buf, data) == ChunkOutcome::Measured(parse_frame(filled(buf, data))),
{
    lemma_first_marker(data);
}

/// Decoder of the sensor's byte stream.
pub struct FrameDecoder {
    buffer: FrameBuffer,
}

impl View for FrameDecoder {
    type V = Seq<u8>;

    closed spec fn view(&self) -> Seq<u8> {
        self.buffer@
    }
}

/// Finds the first start marker in a chunk.
pub fn find_marker(data: &[u8]) -> (k: usize)
    ensures
        k == first_marker(data@),
        k <= data@.len(),
{
    let mut k: usize = 0;
    while k < data.len() && data[k] != START_BIT
        invariant
            k <= data@.len(),
            forall|i: int| 0 <= i < k ==> data@[i] != START_BIT,
        decreases data@.len() - k,
    {
        k = k + 1;
    }
    proof {
        lemma_first_marker_unique(data@, k as int);
    }
    k
}

impl FrameDecoder {
    /// A decoder that has seen nothing yet.
    pub fn new() -> (d: FrameDecoder)
        ensures
            d@ == Seq::<u8>::empty(),
            well_formed(d@),
    {
        FrameDecoder { buffer: FrameBuffer::new() }
    }

    /// Number of bytes of the current partial frame.
    pub fn buffered_len(&self) -> (n: usize)
        ensures
            n == self@.len(),
    {
        self.buffer.len()
    }

    /// Handles one chunk from the transport.
    ///
    /// While no frame has started, bytes before the first start marker are
    /// thrown away. Then as much of the chunk as fits is appended. Once a
    /// full frame is there it is decoded, and the buffer is emptied whether
    /// the checksum held or not.
    pub fn push_chunk(&mut self, data: &[u8]) -> (out: ChunkOutcome)
        ensures
            out == outcome(old(self)@, data@),
            final(self)@ == next_buffer(old(self)@, data@),
            well_formed(old(self)@) ==> well_formed(final(self)@),
    {
        proof {
            lemma_first_marker(data@);
        }
        let start: usize = if self.buffer.is_empty() {
            find_marker(data)
        } else {
            0
        };
        let rest: &[u8] = slice_subrange(data, start, data.len());
        let room: usize = self.buffer.capacity() - self.buffer.len();
        let to_read: usize = if rest.len() <= room {
            rest.len()
        } else {
            room
        };
        let part: &[u8] = slice_subrange(rest, 0, to_read);
        match self.buffer.extend_from_slice(part) {
            Ok(()) => {},
            Err(_) => {
                // `part` was cut to the room that is left.
                assert(false);
            },
        }
        assert(self.buffer@ == filled(old(self)@, data@));
        if self.buffer.len() < RESPONSE_SIZE {
            return ChunkOutcome::Incomplete;
        }
        let decoded = Measurement::try_from(self.buffer.as_slice());
        self.buffer.clear();
        match decoded {
            Ok(m) => ChunkOutcome::Measured(m),
            Err(_) => ChunkOutcome::Discarded,
        }
    }
}

} // verus!
