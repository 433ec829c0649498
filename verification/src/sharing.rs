//! Pointer sharing: address-to-position deduplication.
//!
//! A shared or cyclic object must be encoded exactly once; the sharing table
//! records the archive position of the first encoding so that every later
//! reference resolves to it.  A non-sharing variant drops all bookkeeping
//! for value graphs known to contain no aliasing.

use std::collections::HashMap;
use vstd::prelude::*;
use crate::error::SerializeError;

verus! {

/// An address-to-position table consulted while encoding shared pointers.
///
/// `get_shared_ptr` reports the position recorded for an address, if any.
/// `add_shared_ptr` records an address at a position; recording the same
/// address at the same position again succeeds without change, while
/// recording it at a different position reports the table's duplicate error
/// and changes nothing.
pub trait Sharing<E>: Sized {
    /// Well-formedness of the table's internal state.
    spec fn inv(&self) -> bool;

    /// The recorded address-to-position associations.
    spec fn table(&self) -> Map<usize, usize>;

    /// Whether `add_shared_ptr` stores associations at all; the non-sharing
    /// variant does not.
    spec fn records(&self) -> bool;

    /// The error reported when an address is re-recorded at a different
    /// position.
    spec fn dup_error(&self) -> E;

    /// Returns the position recorded for `address`, or `None` if the address
    /// was never recorded.
    fn get_shared_ptr(&self, address: usize) -> (r: Option<usize>)
        requires
            self.inv(),
        ensures
            r == if self.table().contains_key(address) {
                Some(self.table()[address])
            } else {
                None::<usize>
            },
    ;

    /// Records `address` as encoded at position `pos`.
    fn add_shared_ptr(&mut self, address: usize, pos: usize) -> (r: Result<(), E>)
        requires
            old(self).inv(),
        ensures
            final(self).inv(),
            final(self).records() == old(self).records(),
            r is Ok <==> !old(self).records() || !old(self).table().contains_key(address)
                || old(self).table()[address] == pos,
            r is Ok && old(self).records() ==> final(self).table() == old(self).table().insert(
                address,
                pos,
            ),
            !old(self).records() ==> *final(self) == *old(self),
            r is Err ==> *final(self) == *old(self) && r->Err_0 == old(self).dup_error(),
    ;
}

/// A deduplication table backed by a hash map.
#[derive(Debug)]
pub struct Share {
    entries: HashMap<usize, usize>,
}

impl Share {
    /// Creates an empty table.
    pub fn new() -> (r: Share)
        ensures
            r.inv(),
            r.table() == Map::<usize, usize>::empty(),
    {
        Share { entries: HashMap::new() }
    }
}

impl Sharing<SerializeError> for Share {
    closed spec fn inv(&self) -> bool {
        true
    }

    closed spec fn table(&self) -> Map<usize, usize> {
        self.entries@
    }

    open spec fn records(&self) -> bool {
        true
    }

    open spec fn dup_error(&self) -> SerializeError {
        SerializeError::DuplicateSharedPointer
    }

    fn get_shared_ptr(&self, address: usize) -> (r: Option<usize>) {
        match self.entries.get(&address) {
            Some(p) => Some(*p),
            None => None,
        }
    }

    fn add_shared_ptr(&mut self, address: usize, pos: usize) -> (r: Result<(), SerializeError>) {
        match self.get_shared_ptr(address) {
            Some(existing) => {
                if existing == pos {
                    proof {
                        assert(self.entries@.insert(address, pos) =~= self.entries@);
                    }
                    Ok(())
                } else {
                    Err(SerializeError::DuplicateSharedPointer)
                }
            },
            None => {
                self.entries.insert(address, pos);
                Ok(())
            },
        }
    }
}

/// The non-sharing variant: no bookkeeping, for value graphs with no
/// aliasing.
///
/// Lookups always report "not found" and recording always succeeds with no
/// observable effect.
#[derive(Debug)]
pub struct Unshare;

impl Sharing<SerializeError> for Unshare {
    open spec fn inv(&self) -> bool {
        true
    }

    open spec fn table(&self) -> Map<usize, usize> {
        Map::empty()
    }

    open spec fn records(&self) -> bool {
        false
    }

    open spec fn dup_error(&self) -> SerializeError {
        SerializeError::DuplicateSharedPointer
    }

    fn get_shared_ptr(&self, address: usize) -> (r: Option<usize>) {
        None
    }

    fn add_shared_ptr(&mut self, address: usize, pos: usize) -> (r: Result<(), SerializeError>) {
        Ok(())
    }
}

/// Law: recording an address at a position and then looking that address up
/// yields exactly that position.
pub proof fn lemma_record_then_lookup(table: Map<usize, usize>, address: usize, pos: usize)
    ensures
        table.insert(address, pos).contains_key(address),
        table.insert(address, pos)[address] == pos,
{
}

/// Law: the non-sharing variant's table is empty, so a lookup of any address
/// reports "not found" no matter what was recorded before.
pub proof fn lemma_unshare_never_found(u: Unshare, address: usize)
    ensures
        !u.table().contains_key(address),
{
}

} // verus!
