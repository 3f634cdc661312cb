//! The external-owner capability: a handle that lets a storage region defer
//! its release to the subsystem that truly owns the bytes.

use vstd::prelude::*;

verus! {

/// A capability exposing a single operation, [`ParentDeallocator::dealloc`],
/// that notifies the true owner of a byte region that the region is no longer
/// needed by any tensor.
///
/// A storage whose allocator carries one of these never frees the region
/// itself: the bytes belong to an external producer (for example a media
/// framework that hands out frame buffers), and the only correct way to let
/// them go is to tell that producer. Implementations must be safe to invoke
/// from any thread and must not panic.
pub trait ParentDeallocator {
    /// Notifies the owning subsystem that the region may be reclaimed.
    ///
    /// The storage layer guarantees that this is invoked at most once per
    /// storage instance.
    fn dealloc(&self);
}

} // verus!
