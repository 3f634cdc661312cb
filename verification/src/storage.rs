//! Storage: ownership of a contiguous byte region together with the
//! allocator — and, through it, possibly an external owner — responsible for
//! releasing the region exactly once.

use vstd::prelude::*;

use crate::allocator::{ReleaseKind, TensorAllocator, TensorAllocatorError, TensorLayout};

verus! {

/// A contiguous byte region together with the allocator that must release it.
///
/// A storage is created either by requesting bytes from an allocator (the
/// owned case) or by wrapping bytes whose true owner is an external producer,
/// over an allocator that carries the producer's release handle (the borrowed
/// case). Either way the region is released exactly once: [`Self::release`]
/// consumes the storage, so no second release can even be written, and every
/// path that discards a storage must go through it.
pub struct TensorStorage<A: TensorAllocator> {
    data: Vec<u8>,
    alloc: A,
}

impl<A: TensorAllocator> TensorStorage<A> {
    /// The bytes of the region.
    pub closed spec fn bytes(&self) -> Seq<u8> {
        self.data@
    }

    /// The allocator responsible for the region.
    pub closed spec fn spec_allocator(&self) -> A {
        self.alloc
    }

    /// True when releasing this storage is delegated to an external owner
    /// rather than freeing the region directly.
    pub open spec fn spec_delegates(&self) -> bool {
        self.spec_allocator().spec_delegates()
    }

    /// The owned case: obtains `layout.size()` bytes from `alloc`.
    /// Allocation failure propagates; no storage is produced from a failed
    /// allocation.
    pub fn new(layout: &TensorLayout, alloc: A) -> (r: Result<Self, TensorAllocatorError>)
        requires
            layout.wf(),
        ensures
            r matches Ok(s) ==> s.bytes().len() == layout.spec_size() && s.spec_allocator()
                == alloc,
            r matches Err(e) ==> e == TensorAllocatorError::NullPointer,
    {
        match alloc.allocate(layout) {
            Ok(data) => Ok(TensorStorage { data, alloc }),
            Err(e) => Err(e),
        }
    }

    /// The borrowed case: wraps bytes supplied by an external producer,
    /// performing no allocation. `alloc` should carry the producer's
    /// external-owner handle, so that release notifies the producer instead
    /// of freeing bytes the allocator never owned.
    pub fn from_external_bytes(data: Vec<u8>, alloc: A) -> (r: Self)
        ensures
            r.bytes() == data@,
            r.spec_allocator() == alloc,
    {
        TensorStorage { data, alloc }
    }

    /// The byte length of the region.
    pub fn len(&self) -> (r: usize)
        ensures
            r == self.bytes().len(),
    {
        self.data.len()
    }

    /// Reads one byte of the region; out-of-range positions yield `None`
    /// rather than reading out of bounds.
    pub fn get(&self, i: usize) -> (r: Option<u8>)
        ensures
            r is Some <==> i < self.bytes().len(),
            r matches Some(b) ==> b == self.bytes()[i as int],
    {
        if i < self.data.len() {
            Some(self.data[i])
        } else {
            None
        }
    }

    /// Reads one byte of the region at a position known to be in bounds.
    pub fn read(&self, i: usize) -> (r: u8)
        requires
            i < self.bytes().len(),
        ensures
            r == self.bytes()[i as int],
    {
        self.data[i]
    }

    /// Releases the region, exactly once: the storage is consumed. The
    /// returned kind reports whether the allocator freed the region itself or
    /// delegated to the external owner of the bytes.
    pub fn release(self) -> (k: ReleaseKind)
        ensures
            k == (if self.spec_delegates() {
                ReleaseKind::Delegated
            } else {
                ReleaseKind::Freed
            }),
    {
        let TensorStorage { data, alloc } = self;
        alloc.dealloc(data)
    }
}

} // verus!
