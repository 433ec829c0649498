//! Scratch memory arenas with last-in-first-out acquire/release discipline.
//!
//! Encoding a variable-length composite recurses before its size is known;
//! the arena stages such values in scratch regions.  Regions form a stack:
//! only the most recently acquired open region may be released, and a
//! release that targets any other region is rejected without changing the
//! arena.

use vstd::prelude::*;
use crate::error::SerializeError;

verus! {

/// A size-and-alignment descriptor for a requested scratch allocation.
#[derive(Debug, Clone, Copy, PartialEq, Eq, Structural)]
pub struct MemoryLayout {
    /// The number of bytes requested.
    pub size: usize,
    /// The requested alignment; at least one.
    pub align: usize,
}

impl MemoryLayout {
    /// A layout is well formed when its alignment is at least one.
    pub open spec fn wf(&self) -> bool {
        self.align >= 1
    }

    /// Creates a layout of `size` bytes aligned to `align`.
    pub fn new(size: usize, align: usize) -> (r: MemoryLayout)
        requires
            align >= 1,
        ensures
            r.size == size,
            r.align == align,
            r.wf(),
    {
        MemoryLayout { size, align }
    }
}

/// The shape of one open scratch region: where it starts within the arena's
/// accounting, how many bytes it holds, and its alignment.
#[derive(Debug, Clone, Copy, PartialEq, Eq, Structural)]
pub struct RegionShape {
    /// Start offset of the region within the arena.
    pub index: usize,
    /// Number of bytes in the region.
    pub size: usize,
    /// Alignment the region was acquired with.
    pub align: usize,
}

/// A live scratch allocation: an owned staging buffer together with the
/// offset the arena assigned to it.  It is returned to the arena by the one
/// release call that matches it.
#[derive(Debug)]
pub struct ScratchRegion {
    /// The offset the arena assigned to this region.
    pub index: usize,
    /// The staging buffer; its length is the acquired size.
    pub buf: Vec<u8>,
}

/// The shape that an acquisition of `region` under `layout` pushes onto the
/// arena's stack of open regions.
pub open spec fn region_shape(region: ScratchRegion, layout: MemoryLayout) -> RegionShape {
    RegionShape { index: region.index, size: layout.size, align: layout.align }
}

/// Whether `(region, layout)` identifies the most recently acquired still-open
/// region of an arena whose stack of open regions is `stack`.
pub open spec fn matches_top(stack: Seq<RegionShape>, region: ScratchRegion, layout: MemoryLayout) -> bool {
    &&& stack.len() > 0
    &&& stack.last() == region_shape(region, layout)
    &&& region.buf@.len() == layout.size
}

/// The padding needed to advance offset `used` to the next multiple of
/// `align`.
pub open spec fn pad_for(used: int, align: int) -> int {
    if used % align == 0 {
        0
    } else {
        align - used % align
    }
}

/// Whether an arena whose accounting stands at offset `used` out of
/// `capacity` can satisfy `layout`: the padded, aligned start plus the
/// requested size stays within the capacity.
pub open spec fn arena_fits(used: int, capacity: int, layout: MemoryLayout) -> bool {
    used + pad_for(used, layout.align as int) + layout.size <= capacity
}

/// A scratch memory arena enforcing last-in-first-out discipline.
///
/// A successful acquisition pushes the new region onto the stack of open
/// regions and returns a buffer of exactly the requested size whose offset
/// is aligned as requested; a failed one reports the arena's exhaustion
/// error and changes nothing.  A release succeeds exactly when it targets
/// the most recently acquired open region; otherwise it reports the arena's
/// mismatch error and changes nothing.
pub trait Allocator<E>: Sized {
    /// Well-formedness of the arena's internal state.
    spec fn inv(&self) -> bool;

    /// The open regions, in order of acquisition; the last is the most
    /// recently acquired.
    spec fn stack(&self) -> Seq<RegionShape>;

    /// The arena's current accounting offset: regions are placed at or
    /// above it.
    spec fn used(&self) -> int;

    /// The arena's total accounting capacity; a growable arena's is the
    /// largest offset the accounting can express.
    spec fn capacity(&self) -> int;

    /// The error reported when the arena cannot satisfy a request.
    spec fn oom_error(&self) -> E;

    /// The error reported when a release does not target the top region.
    spec fn mismatch_error(&self) -> E;

    /// Acquires a scratch region of the given layout.
    fn push_alloc(&mut self, layout: MemoryLayout) -> (r: Result<ScratchRegion, E>)
        requires
            old(self).inv(),
            layout.wf(),
        ensures
            final(self).inv(),
            final(self).capacity() == old(self).capacity(),
            r is Ok <==> arena_fits(old(self).used(), old(self).capacity(), layout),
            r is Ok ==> final(self).stack() == old(self).stack().push(
                region_shape(r->Ok_0, layout),
            ),
            r is Ok ==> (r->Ok_0).buf@.len() == layout.size && (r->Ok_0).index as int
                % layout.align as int == 0,
            r is Ok ==> (r->Ok_0).index == old(self).used() + pad_for(
                old(self).used(),
                layout.align as int,
            ) && final(self).used() == (r->Ok_0).index + layout.size,
            r is Err ==> *final(self) == *old(self) && r->Err_0 == old(self).oom_error(),
    ;

    /// Releases a scratch region previously returned by `push_alloc`.
    fn pop_alloc(&mut self, region: ScratchRegion, layout: MemoryLayout) -> (r: Result<(), E>)
        requires
            old(self).inv(),
        ensures
            final(self).inv(),
            final(self).capacity() == old(self).capacity(),
            r is Ok <==> matches_top(old(self).stack(), region, layout),
            r is Ok ==> final(self).stack() == old(self).stack().drop_last(),
            r is Ok ==> final(self).used() == old(self).stack().last().index,
            r is Err ==> *final(self) == *old(self) && r->Err_0 == old(self).mismatch_error(),
    ;
}

/// A bounded sub-allocator: a fixed declared capacity, no growth.
///
/// Exhausting the capacity yields [`SerializeError::OutOfMemory`].
#[derive(Debug)]
pub struct SubAllocator {
    capacity: usize,
    used: usize,
    regions: Vec<RegionShape>,
}

impl SubAllocator {
    /// Creates an empty arena with the given declared capacity.
    pub fn new(capacity: usize) -> (r: SubAllocator)
        ensures
            r.inv(),
            r.stack() == Seq::<RegionShape>::empty(),
            r.capacity() == capacity,
            r.used() == 0,
    {
        SubAllocator { capacity, used: 0, regions: Vec::new() }
    }
}

impl Allocator<SerializeError> for SubAllocator {
    closed spec fn inv(&self) -> bool {
        &&& self.used <= self.capacity
        &&& stack_wf(self.regions@, self.used as int)
    }

    closed spec fn stack(&self) -> Seq<RegionShape> {
        self.regions@
    }

    closed spec fn used(&self) -> int {
        self.used as int
    }

    closed spec fn capacity(&self) -> int {
        self.capacity as int
    }

    open spec fn oom_error(&self) -> SerializeError {
        SerializeError::OutOfMemory
    }

    open spec fn mismatch_error(&self) -> SerializeError {
        SerializeError::AllocationMismatch
    }

    fn push_alloc(&mut self, layout: MemoryLayout) -> (r: Result<ScratchRegion, SerializeError>)
    {
        let rem = self.used % layout.align;
        let pad = if rem == 0 { 0 } else { layout.align - rem };
        if pad > self.capacity - self.used {
            return Err(SerializeError::OutOfMemory);
        }
        let start = self.used + pad;
        if layout.size > self.capacity - start {
            return Err(SerializeError::OutOfMemory);
        }
        proof {
            lemma_padded_offset_aligned(self.used as int, layout.align as int);
        }
        let buf = zeroed_buffer(layout.size);
        let shape = RegionShape { index: start, size: layout.size, align: layout.align };
        self.regions.push(shape);
        self.used = start + layout.size;
        Ok(ScratchRegion { index: start, buf })
    }

    fn pop_alloc(&mut self, region: ScratchRegion, layout: MemoryLayout) -> (r: Result<(), SerializeError>)
    {
        let n = self.regions.len();
        if n == 0 {
            return Err(SerializeError::AllocationMismatch);
        }
        let top = self.regions[n - 1];
        if top.index == region.index && top.size == layout.size && top.align == layout.align
            && region.buf.len() == layout.size {
            self.regions.pop();
            self.used = top.index;
            Ok(())
        } else {
            Err(SerializeError::AllocationMismatch)
        }
    }
}

/// A growable arena handle: scratch buffers come from the ambient allocator,
/// so a well-formed request is always satisfied.
///
/// The same last-in-first-out discipline as the bounded arena applies to
/// releases.
#[derive(Debug)]
pub struct ArenaHandle {
    used: usize,
    regions: Vec<RegionShape>,
}

impl ArenaHandle {
    /// Creates an empty growable arena.
    pub fn new() -> (r: ArenaHandle)
        ensures
            r.inv(),
            r.stack() == Seq::<RegionShape>::empty(),
            r.used() == 0,
    {
        ArenaHandle { used: 0, regions: Vec::new() }
    }
}

impl Allocator<SerializeError> for ArenaHandle {
    closed spec fn inv(&self) -> bool {
        stack_wf(self.regions@, self.used as int)
    }

    closed spec fn stack(&self) -> Seq<RegionShape> {
        self.regions@
    }

    closed spec fn used(&self) -> int {
        self.used as int
    }

    open spec fn capacity(&self) -> int {
        usize::MAX as int
    }

    open spec fn oom_error(&self) -> SerializeError {
        SerializeError::OutOfMemory
    }

    open spec fn mismatch_error(&self) -> SerializeError {
        SerializeError::AllocationMismatch
    }

    fn push_alloc(&mut self, layout: MemoryLayout) -> (r: Result<ScratchRegion, SerializeError>)
    {
        let rem = self.used % layout.align;
        let pad = if rem == 0 { 0 } else { layout.align - rem };
        if pad > usize::MAX - self.used {
            return Err(SerializeError::OutOfMemory);
        }
        let start = self.used + pad;
        if layout.size > usize::MAX - start {
            return Err(SerializeError::OutOfMemory);
        }
        proof {
            lemma_padded_offset_aligned(self.used as int, layout.align as int);
        }
        let buf = zeroed_buffer(layout.size);
        let shape = RegionShape { index: start, size: layout.size, align: layout.align };
        self.regions.push(shape);
        self.used = start + layout.size;
        Ok(ScratchRegion { index: start, buf })
    }

    fn pop_alloc(&mut self, region: ScratchRegion, layout: MemoryLayout) -> (r: Result<(), SerializeError>)
    {
        let n = self.regions.len();
        if n == 0 {
            return Err(SerializeError::AllocationMismatch);
        }
        let top = self.regions[n - 1];
        if top.index == region.index && top.size == layout.size && top.align == layout.align
            && region.buf.len() == layout.size {
            self.regions.pop();
            self.used = top.index;
            Ok(())
        } else {
            Err(SerializeError::AllocationMismatch)
        }
    }
}

/// Well-formedness of a stack of open regions against the arena's high-water
/// offset `used`: regions are disjoint, in acquisition order, and all below
/// `used`.
pub open spec fn stack_wf(regions: Seq<RegionShape>, used: int) -> bool {
    &&& forall|i: int|
        0 <= i < regions.len() - 1 ==> #[trigger] regions[i].index + regions[i].size
            <= regions[i + 1].index
    &&& regions.len() > 0 ==> regions.last().index + regions.last().size <= used
}

/// Law: the region just returned by a successful acquisition is itself the
/// most recently acquired open region, so releasing it with the same layout
/// is accepted.  Properly nested acquire/release pairs therefore always
/// release successfully.
pub proof fn lemma_acquired_region_releases(
    stack: Seq<RegionShape>,
    region: ScratchRegion,
    layout: MemoryLayout,
)
    requires
        region.buf@.len() == layout.size,
    ensures
        matches_top(stack.push(region_shape(region, layout)), region, layout),
{
}

/// The padded offset is a multiple of the alignment.
proof fn lemma_padded_offset_aligned(used: int, align: int)
    requires
        used >= 0,
        align >= 1,
    ensures
        (used + pad_for(used, align)) % align == 0,
{
    if used % align != 0 {
        let q = used / align;
        vstd::arithmetic::div_mod::lemma_fundamental_div_mod(used, align);
        assert(used + pad_for(used, align) == align * (q + 1)) by (nonlinear_arith)
            requires
                used == align * q + used % align,
                align >= 1,
                used % align != 0,
                pad_for(used, align) == align - used % align,
        ;
        assert((align * (q + 1)) % align == 0) by {
            vstd::arithmetic::div_mod::lemma_mod_multiples_basic(q + 1, align);
        }
    }
}

/// Returns a vector of `len` zero bytes.
fn zeroed_buffer(len: usize) -> (r: Vec<u8>)
    ensures
        r@.len() == len,
        forall|i: int| 0 <= i < len ==> r@[i] == 0u8,
{
    let mut v: Vec<u8> = Vec::new();
    let mut i: usize = 0;
    while i < len
        invariant
            i <= len,
            v@.len() == i,
            forall|j: int| 0 <= j < i ==> v@[j] == 0u8,
        decreases len - i,
    {
        v.push(0u8);
        i = i + 1;
    }
    v
}

} // verus!
