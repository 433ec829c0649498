//! Errors surfaced by the concrete capability implementations.

use vstd::prelude::*;

verus! {

/// The failures that the concrete writer, allocator, and sharing
/// implementations of this crate can report.
///
/// The capability traits are generic over the error type; this enum is the
/// taxonomy their in-crate implementations use.
#[derive(Debug, Clone, Copy, PartialEq, Eq, Structural)]
pub enum SerializeError {
    /// The sink cannot accept the bytes: the write would exceed its capacity.
    CapacityError,
    /// The arena cannot satisfy the requested scratch layout.
    OutOfMemory,
    /// A release did not target the most recently acquired open region.
    AllocationMismatch,
    /// An address was recorded a second time at a different position.
    DuplicateSharedPointer,
}

} // verus!
