//! The bounded byte accumulator in which a frame is assembled: a
//! fixed-capacity `heapless::Vec` of exactly one frame's size.

use vstd::prelude::*;
use crate::measurement::RESPONSE_SIZE;

verus! {

/// Error of `heapless` when a vector cannot take what it is given.
#[verifier::external_type_specification]
#[verifier::external_body]
pub struct ExCapacityError(heapless::CapacityError);

/// A byte vector with room for exactly one frame.
///
/// The storage type of `heapless::Vec` cannot be named outside its crate, so
/// the vector is kept behind this opaque struct and reached only through the
/// methods below.
#[verifier::external_body]
pub struct FrameBuffer {
    bytes: heapless::Vec<u8, 26>,
}

/// The bytes that a buffer holds, oldest first.
pub uninterp spec fn buffered(b: FrameBuffer) -> Seq<u8>;

impl View for FrameBuffer {
    type V = Seq<u8>;

    open spec fn view(&self) -> Seq<u8> {
        buffered(*self)
    }
}

impl FrameBuffer {
    /// `heapless::Vec::new`: a new vector is empty.
    #[verifier::external_body]
    pub(crate) fn new() -> (b: FrameBuffer)
        ensures
            buffered(b) == Seq::<u8>::empty(),
    {
        FrameBuffer { bytes: heapless::Vec::new() }
    }

    /// The length of the vector's slice (`heapless::Vec` dereferences to
    /// `as_slice`): the number of bytes held, which never exceeds the
    /// capacity.
    #[verifier::external_body]
    pub(crate) fn len(&self) -> (n: usize)
        ensures
            n == buffered(*self).len(),
            n <= RESPONSE_SIZE,
    {
        self.bytes.len()
    }

    /// `heapless::Vec::is_empty`: whether no byte is held.
    #[verifier::external_body]
    pub(crate) fn is_empty(&self) -> (e: bool)
        ensures
            e == (buffered(*self).len() == 0),
    {
        self.bytes.is_empty()
    }

    /// `heapless::Vec::capacity`: the fixed capacity, one frame.
    #[verifier::external_body]
    pub(crate) fn capacity(&self) -> (n: usize)
        ensures
            n == RESPONSE_SIZE,
    {
        self.bytes.capacity()
    }

    /// `heapless::Vec::extend_from_slice`: appends all of `other` in order
    /// when it fits in the remaining capacity; otherwise fails and leaves
    /// the vector as it was.
    #[verifier::external_body]
    pub(crate) fn extend_from_slice(&mut self, other: &[u8]) -> (r: Result<(), heapless::CapacityError>)
        ensures
            r is Ok <==> buffered(*old(self)).len() + other@.len() <= RESPONSE_SIZE,
            r is Ok ==> buffered(*final(self)) == buffered(*old(self)) + other@,
            r is Err ==> buffered(*final(self)) == buffered(*old(self)),
    {
        self.bytes.extend_from_slice(other)
    }

    /// `heapless::Vec::clear`: removes every byte.
    #[verifier::external_body]
    pub(crate) fn clear(&mut self)
        ensures
            buffered(*final(self)) == Seq::<u8>::empty(),
    {
        self.bytes.clear()
    }

    /// `heapless::Vec::as_slice`: the bytes held, as a slice.
    #[verifier::external_body]
    pub(crate) fn as_slice(&self) -> (s: &[u8])
        ensures
            s@ == buffered(*self),
    {
        self.bytes.as_slice()
    }
}

} // verus!
