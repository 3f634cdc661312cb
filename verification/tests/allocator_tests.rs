use std::cell::Cell;
use std::rc::Rc;

use kornia::{
    CpuAllocator, FrameParent, ParentDeallocator, ReleaseKind, TensorAllocator,
    TensorAllocatorError, TensorLayout,
};

/// An external owner that counts how often its release path was invoked.
#[derive(Clone)]
struct CountingParent(Rc<Cell<usize>>);

impl ParentDeallocator for CountingParent {
    fn dealloc(&self) {
        self.0.set(self.0.get() + 1);
    }
}

#[test]
fn test_cpu_allocator() -> Result<(), TensorAllocatorError> {
    let allocator = CpuAllocator::<FrameParent>::default();
    let layout = TensorLayout::from_size_align(1024, 64).unwrap();
    let region = allocator.allocate(&layout)?;
    assert_eq!(region.len(), 1024);
    allocator.dealloc(region);
    Ok(())
}

#[test]
fn layout_rejects_non_power_of_two_align() {
    assert_eq!(
        TensorLayout::from_size_align(10, 3),
        Err(TensorAllocatorError::LayoutError)
    );
    assert_eq!(
        TensorLayout::from_size_align(10, 0),
        Err(TensorAllocatorError::LayoutError)
    );
}

#[test]
fn layout_rejects_oversized_region() {
    assert_eq!(
        TensorLayout::from_size_align(usize::MAX, 1),
        Err(TensorAllocatorError::LayoutError)
    );
    let l = TensorLayout::from_size_align(isize::MAX as usize, 1).unwrap();
    assert_eq!(l.size(), isize::MAX as usize);
    assert_eq!(l.align(), 1);
}

#[test]
fn allocate_zeroes_region() {
    let allocator = CpuAllocator::<FrameParent>::default();
    let layout = TensorLayout::from_size_align(16, 8).unwrap();
    let region = allocator.allocate(&layout).unwrap();
    assert_eq!(region, vec![0u8; 16]);
    allocator.dealloc(region);
}

#[test]
fn dealloc_without_parent_frees_directly() {
    let allocator = CpuAllocator::<CountingParent>::default();
    let layout = TensorLayout::from_size_align(8, 1).unwrap();
    let region = allocator.allocate(&layout).unwrap();
    assert_eq!(allocator.dealloc(region), ReleaseKind::Freed);
}

#[test]
fn dealloc_with_parent_delegates_exactly_once() {
    let count = Rc::new(Cell::new(0));
    let allocator = CpuAllocator::with_parent_relation(CountingParent(count.clone()));
    let kind = allocator.dealloc(vec![1, 2, 3]);
    assert_eq!(kind, ReleaseKind::Delegated);
    assert_eq!(count.get(), 1);
}
