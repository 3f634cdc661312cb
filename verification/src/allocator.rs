//! The allocation model: how a contiguous byte region of a given size and
//! alignment is obtained, and how it is released — either freed directly by
//! the allocator, or handed back to an external owner.

use vstd::prelude::*;

use crate::parent_deallocator::ParentDeallocator;

verus! {

/// An error from an allocator operation.
#[derive(Debug, Clone, Copy, PartialEq, Eq, Structural)]
pub enum TensorAllocatorError {
    /// The requested size and alignment do not describe a valid layout.
    LayoutError,
    /// The allocator could not obtain the requested region.
    NullPointer,
}

/// Which path released a byte region.
#[derive(Debug, Clone, Copy, PartialEq, Eq, Structural)]
pub enum ReleaseKind {
    /// The allocator freed the region through its own mechanism.
    Freed,
    /// The release was delegated to the external owner of the bytes; the
    /// allocator did not touch the region itself.
    Delegated,
}

/// True when `align` is a power of two.
pub open spec fn is_valid_align(align: usize) -> bool {
    align != 0 && align & ((align - 1) as usize) == 0
}

/// True when `size` rounded up to a multiple of `align` stays within
/// `isize::MAX`, the limit every Rust allocation must respect.
pub open spec fn layout_fits(size: usize, align: usize) -> bool {
    size <= isize::MAX - ((align - 1) as usize)
}

/// The size and alignment of a byte region.
#[derive(Debug, Clone, Copy, PartialEq, Eq, Structural)]
pub struct TensorLayout {
    size: usize,
    align: usize,
}

impl TensorLayout {
    /// The number of bytes in the region.
    pub closed spec fn spec_size(self) -> usize {
        self.size
    }

    /// The required alignment of the region's first byte.
    pub closed spec fn spec_align(self) -> usize {
        self.align
    }

    /// A layout is well formed when its alignment is a power of two and its
    /// rounded-up size does not overflow `isize`.
    pub open spec fn wf(self) -> bool {
        is_valid_align(self.spec_align()) && layout_fits(self.spec_size(), self.spec_align())
    }

    /// Validates a size and alignment pair, mirroring the rules a system
    /// allocator imposes on a layout.
    pub fn from_size_align(size: usize, align: usize) -> (r: Result<Self, TensorAllocatorError>)
        ensures
            r matches Ok(l) ==> l.spec_size() == size && l.spec_align() == align && l.wf(),
            r is Err <==> !(is_valid_align(align) && layout_fits(size, align)),
            r matches Err(e) ==> e == TensorAllocatorError::LayoutError,
    {
        if align == 0 || align & (align - 1) != 0 {
            return Err(TensorAllocatorError::LayoutError);
        }
        if (size as u128) + ((align as u128) - 1) > isize::MAX as u128 {
            return Err(TensorAllocatorError::LayoutError);
        }
        Ok(TensorLayout { size, align })
    }

    /// The number of bytes in the region.
    pub fn size(&self) -> (r: usize)
        ensures
            r == self.spec_size(),
    {
        self.size
    }

    /// The required alignment of the region's first byte.
    pub fn align(&self) -> (r: usize)
        ensures
            r == self.spec_align(),
    {
        self.align
    }
}

/// The capability of obtaining and releasing a contiguous byte region.
///
/// An allocator either owns the regions it hands out, or merely describes a
/// region whose true owner is an external subsystem; `spec_delegates` tells
/// the two apart, and `dealloc` reports which path ran. Allocators are cheap
/// to clone and safe to share.
pub trait TensorAllocator: Clone {
    /// True when this allocator does not own its regions and must delegate
    /// their release to an external owner.
    spec fn spec_delegates(&self) -> bool;

    /// Obtains a region of exactly `layout.size()` bytes, or reports failure
    /// explicitly; a region is never silently truncated.
    fn allocate(&self, layout: &TensorLayout) -> (r: Result<Vec<u8>, TensorAllocatorError>)
        requires
            layout.wf(),
        ensures
            r matches Ok(region) ==> region@.len() == layout.spec_size(),
            r matches Err(e) ==> e == TensorAllocatorError::NullPointer,
    ;

    /// Releases a region previously obtained for this allocator.
    ///
    /// The caller must invoke this at most once per region; the storage layer
    /// enforces that by consuming the storage that owns the region.
    fn dealloc(&self, region: Vec<u8>) -> (k: ReleaseKind)
        ensures
            k == (if self.spec_delegates() {
                ReleaseKind::Delegated
            } else {
                ReleaseKind::Freed
            }),
    ;
}

/// An allocator for locally owned regions, optionally carrying the
/// external-owner handle of bytes that are only borrowed.
///
/// Without a parent relation it obtains regions from the process heap and
/// frees them itself. With a parent relation it describes a region owned by
/// an external producer: its release path invokes the parent's
/// [`ParentDeallocator::dealloc`] exactly once and never frees the bytes
/// directly.
#[derive(Clone)]
pub struct CpuAllocator<P: ParentDeallocator> {
    parent: Option<P>,
}

impl<P: ParentDeallocator> CpuAllocator<P> {
    /// True when this allocator carries an external-owner handle.
    pub closed spec fn spec_has_parent(&self) -> bool {
        self.parent is Some
    }

    /// Creates an allocator that defers the release of its region to
    /// `parent`. Storages built over such an allocator describe bytes that
    /// belong to the parent; they are never freed directly.
    pub fn with_parent_relation(parent: P) -> (r: Self)
        ensures
            r.spec_has_parent(),
    {
        CpuAllocator { parent: Some(parent) }
    }
}

impl<P: ParentDeallocator + Clone> Default for CpuAllocator<P> {
    /// An allocator with no parent relation: it owns its regions outright.
    fn default() -> (r: Self)
        ensures
            !r.spec_has_parent(),
    {
        CpuAllocator { parent: None }
    }
}

impl<P: ParentDeallocator + Clone> TensorAllocator for CpuAllocator<P> {
    open spec fn spec_delegates(&self) -> bool {
        self.spec_has_parent()
    }

    fn allocate(&self, layout: &TensorLayout) -> (r: Result<Vec<u8>, TensorAllocatorError>) {
        let size = layout.size();
        let mut region: Vec<u8> = Vec::new();
        if region.try_reserve(size).is_err() {
            return Err(TensorAllocatorError::NullPointer);
        }
        let mut i: usize = 0;
        while i < size
            invariant
                i <= size,
                region@.len() == i,
            decreases size - i,
        {
            region.push(0);
            i += 1;
        }
        Ok(region)
    }

    fn dealloc(&self, region: Vec<u8>) -> (k: ReleaseKind) {
        match &self.parent {
            Some(parent) => {
                // The bytes belong to the parent: notify it and leave the
                // region alone.
                parent.dealloc();
                ReleaseKind::Delegated
            },
            None => {
                let _ = region;
                ReleaseKind::Freed
            },
        }
    }
}

} // verus!
