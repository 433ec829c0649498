//! Write-side core for a zero-copy archive format.
//!
//! An archive is built by appending bytes to a [`writer::Writer`] while a
//! [`allocator::Allocator`] supplies stack-disciplined scratch memory for
//! staging composite values and a [`sharing::Sharing`] table deduplicates
//! shared pointers.  The [`Serializer`] aggregates one of each capability
//! behind a single handle and forwards every call unmodified.

use vstd::prelude::*;

pub mod allocator;
pub mod error;
pub mod sharing;
pub mod writer;

use crate::allocator::{Allocator, ArenaHandle, MemoryLayout, RegionShape, ScratchRegion, SubAllocator};
use crate::sharing::{Share, Sharing, Unshare};
use crate::writer::{Positional, Writer};

verus! {

/// A serializer built from composeable pieces.
#[derive(Debug)]
pub struct Serializer<W, A, S> {
    /// The writer of the serializer.
    pub writer: W,
    /// The allocator of the serializer.
    pub allocator: A,
    /// The pointer sharing of the serializer.
    pub sharing: S,
}

impl<W, A, S> Serializer<W, A, S> {
    /// Creates a new serializer from a writer, allocator, and pointer sharing.
    pub fn new(writer: W, allocator: A, sharing: S) -> (r: Self)
        ensures
            r.writer == writer,
            r.allocator == allocator,
            r.sharing == sharing,
    {
        Self { writer, allocator, sharing }
    }

    /// Consumes the serializer and returns the components.
    pub fn into_raw_parts(self) -> (r: (W, A, S))
        ensures
            r.0 == self.writer,
            r.1 == self.allocator,
            r.2 == self.sharing,
    {
        (self.writer, self.allocator, self.sharing)
    }

    /// Consumes the serializer and returns the writer.
    ///
    /// The allocator and pointer sharing are discarded.
    pub fn into_writer(self) -> (r: W)
        ensures
            r == self.writer,
    {
        self.writer
    }
}

impl<W: Positional, A, S> Positional for Serializer<W, A, S> {
    open spec fn committed(&self) -> Seq<u8> {
        self.writer.committed()
    }

    open spec fn inv(&self) -> bool {
        self.writer.inv()
    }

    fn pos(&self) -> (r: usize) {
        self.writer.pos()
    }
}

impl<W: Writer<E>, A, S, E> Writer<E> for Serializer<W, A, S> {
    open spec fn accepts(&self, bytes: Seq<u8>) -> bool {
        self.writer.accepts(bytes)
    }

    open spec fn write_error(&self) -> E {
        self.writer.write_error()
    }

    fn write(&mut self, bytes: &[u8]) -> (r: Result<(), E>)
        ensures
            final(self).allocator == old(self).allocator,
            final(self).sharing == old(self).sharing,
    {
        self.writer.write(bytes)
    }
}

impl<W, A: Allocator<E>, S, E> Allocator<E> for Serializer<W, A, S> {
    open spec fn inv(&self) -> bool {
        self.allocator.inv()
    }

    open spec fn stack(&self) -> Seq<RegionShape> {
        self.allocator.stack()
    }

    open spec fn used(&self) -> int {
        self.allocator.used()
    }

    open spec fn capacity(&self) -> int {
        self.allocator.capacity()
    }

    open spec fn oom_error(&self) -> E {
        self.allocator.oom_error()
    }

    open spec fn mismatch_error(&self) -> E {
        self.allocator.mismatch_error()
    }

    fn push_alloc(&mut self, layout: MemoryLayout) -> (r: Result<ScratchRegion, E>)
        ensures
            final(self).writer == old(self).writer,
            final(self).sharing == old(self).sharing,
    {
        self.allocator.push_alloc(layout)
    }

    fn pop_alloc(&mut self, region: ScratchRegion, layout: MemoryLayout) -> (r: Result<(), E>)
        ensures
            final(self).writer == old(self).writer,
            final(self).sharing == old(self).sharing,
    {
        self.allocator.pop_alloc(region, layout)
    }
}

impl<W, A, S: Sharing<E>, E> Sharing<E> for Serializer<W, A, S> {
    open spec fn inv(&self) -> bool {
        self.sharing.inv()
    }

    open spec fn table(&self) -> Map<usize, usize> {
        self.sharing.table()
    }

    open spec fn records(&self) -> bool {
        self.sharing.records()
    }

    open spec fn dup_error(&self) -> E {
        self.sharing.dup_error()
    }

    fn get_shared_ptr(&self, address: usize) -> (r: Option<usize>) {
        self.sharing.get_shared_ptr(address)
    }

    fn add_shared_ptr(&mut self, address: usize, pos: usize) -> (r: Result<(), E>)
        ensures
            final(self).writer == old(self).writer,
            final(self).allocator == old(self).allocator,
    {
        self.sharing.add_shared_ptr(address, pos)
    }
}

/// A serializer suitable for environments where allocations cannot be made:
/// a bounded sub-allocator and no pointer sharing.
pub type CoreSerializer<W> = Serializer<W, SubAllocator, Unshare>;

/// A general-purpose serializer suitable for environments where allocations
/// can be made: a growable arena and full pointer sharing.
pub type DefaultSerializer<W> = Serializer<W, ArenaHandle, Share>;

} // verus!
