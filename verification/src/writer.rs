//! Byte sinks that track the archive position.
//!
//! The position of a sink is the number of bytes committed to it since
//! creation; relative references written later use it as their origin.

use vstd::prelude::*;
use crate::error::SerializeError;

verus! {

/// A type with a position: the number of bytes committed so far.
pub trait Positional: Sized {
    /// Every byte committed to the sink since creation, in order.
    spec fn committed(&self) -> Seq<u8>;

    /// Well-formedness of the sink's internal state.
    spec fn inv(&self) -> bool;

    /// Returns the current position, the number of bytes committed so far.
    fn pos(&self) -> (r: usize)
        requires
            self.inv(),
        ensures
            r == self.committed().len(),
    ;
}

/// A sink that accepts bytes and appends them to the growing archive.
///
/// A successful `write` commits exactly the given bytes; a failed `write`
/// leaves the sink unchanged, so the position never advances past what was
/// actually committed.
pub trait Writer<E>: Positional {
    /// Whether the sink can accept `bytes` in its current state.
    spec fn accepts(&self, bytes: Seq<u8>) -> bool;

    /// The error reported when the sink cannot accept a write.
    spec fn write_error(&self) -> E;

    /// Appends `bytes` to the sink.
    fn write(&mut self, bytes: &[u8]) -> (r: Result<(), E>)
        requires
            old(self).inv(),
        ensures
            final(self).inv(),
            r is Ok <==> old(self).accepts(bytes@),
            r is Ok ==> final(self).committed() == old(self).committed() + bytes@,
            r is Err ==> *final(self) == *old(self) && r->Err_0 == old(self).write_error(),
    ;
}

/// A growable byte sink backed by a vector; writes always succeed.
#[derive(Debug)]
pub struct VecWriter {
    bytes: Vec<u8>,
}

impl VecWriter {
    /// Creates an empty sink.
    pub fn new() -> (r: VecWriter)
        ensures
            r.inv(),
            r.committed() == Seq::<u8>::empty(),
    {
        VecWriter { bytes: Vec::new() }
    }

    /// Consumes the sink and returns the committed bytes.
    pub fn into_vec(self) -> (r: Vec<u8>)
        ensures
            r@ == self.committed(),
    {
        self.bytes
    }
}

impl Positional for VecWriter {
    closed spec fn committed(&self) -> Seq<u8> {
        self.bytes@
    }

    open spec fn inv(&self) -> bool {
        true
    }

    fn pos(&self) -> (r: usize) {
        self.bytes.len()
    }
}

impl Writer<SerializeError> for VecWriter {
    open spec fn accepts(&self, bytes: Seq<u8>) -> bool {
        true
    }

    open spec fn write_error(&self) -> SerializeError {
        SerializeError::CapacityError
    }

    fn write(&mut self, bytes: &[u8]) -> (r: Result<(), SerializeError>) {
        append_slice(&mut self.bytes, bytes);
        Ok(())
    }
}

/// A fixed-capacity byte sink; a write that would exceed the capacity fails
/// and commits nothing.
#[derive(Debug)]
pub struct BufferWriter {
    bytes: Vec<u8>,
    capacity: usize,
}

impl BufferWriter {
    /// The number of bytes the sink can hold in all.
    pub closed spec fn spec_capacity(&self) -> usize {
        self.capacity
    }

    /// Creates an empty sink that can hold `capacity` bytes in all.
    pub fn new(capacity: usize) -> (r: BufferWriter)
        ensures
            r.inv(),
            r.committed() == Seq::<u8>::empty(),
            r.spec_capacity() == capacity,
    {
        BufferWriter { bytes: Vec::new(), capacity }
    }

    /// Returns the number of bytes the sink can hold in all.
    pub fn capacity(&self) -> (r: usize)
        ensures
            r == self.spec_capacity(),
    {
        self.capacity
    }

    /// Consumes the sink and returns the committed bytes.
    pub fn into_vec(self) -> (r: Vec<u8>)
        ensures
            r@ == self.committed(),
    {
        self.bytes
    }
}

impl Positional for BufferWriter {
    closed spec fn committed(&self) -> Seq<u8> {
        self.bytes@
    }

    open spec fn inv(&self) -> bool {
        self.committed().len() <= self.spec_capacity()
    }

    fn pos(&self) -> (r: usize) {
        self.bytes.len()
    }
}

impl Writer<SerializeError> for BufferWriter {
    open spec fn accepts(&self, bytes: Seq<u8>) -> bool {
        self.committed().len() + bytes.len() <= self.spec_capacity()
    }

    open spec fn write_error(&self) -> SerializeError {
        SerializeError::CapacityError
    }

    fn write(&mut self, bytes: &[u8]) -> (r: Result<(), SerializeError>) {
        if bytes.len() <= self.capacity - self.bytes.len() {
            append_slice(&mut self.bytes, bytes);
            Ok(())
        } else {
            Err(SerializeError::CapacityError)
        }
    }
}

/// Appends every byte of `src` to `dst`, in order.
fn append_slice(dst: &mut Vec<u8>, src: &[u8])
    ensures
        final(dst)@ == old(dst)@ + src@,
{
    let mut i: usize = 0;
    while i < src.len()
        invariant
            i <= src@.len(),
            dst@ == old(dst)@ + src@.subrange(0, i as int),
        decreases src@.len() - i,
    {
        dst.push(src[i]);
        proof {
            assert(src@.subrange(0, i + 1) == src@.subrange(0, i as int).push(src@[i as int]));
        }
        i = i + 1;
    }
    proof {
        assert(src@.subrange(0, src@.len() as int) == src@);
    }
}

/// The sum of the lengths of a sequence of byte chunks.
pub open spec fn total_len(chunks: Seq<Seq<u8>>) -> int
    decreases chunks.len(),
{
    if chunks.len() == 0 {
        0
    } else {
        total_len(chunks.drop_last()) + chunks.last().len()
    }
}

/// The concatenation of a sequence of byte chunks, in order.
pub open spec fn concat_chunks(chunks: Seq<Seq<u8>>) -> Seq<u8>
    decreases chunks.len(),
{
    if chunks.len() == 0 {
        Seq::empty()
    } else {
        concat_chunks(chunks.drop_last()) + chunks.last()
    }
}

/// Law: a sink whose committed bytes are the concatenation of the chunks it
/// accepted reports a position equal to the sum of the chunk lengths.
///
/// Together with the `write` contract — each successful call appends exactly
/// its bytes to `committed` — this says that `pos` always equals the sum of
/// the byte-lengths of all successful writes since creation.
pub proof fn lemma_pos_is_sum_of_writes(chunks: Seq<Seq<u8>>)
    ensures
        concat_chunks(chunks).len() == total_len(chunks),
    decreases chunks.len(),
{
    if chunks.len() > 0 {
        lemma_pos_is_sum_of_writes(chunks.drop_last());
    }
}

} // verus!
