use kornia::{
    get_strides_from_shape, CpuAllocator, FrameParent, ReleaseKind, Tensor, TensorAllocatorError,
    TensorError, TensorStorage,
};

type PlainAllocator = CpuAllocator<FrameParent>;

fn borrowed(data: Vec<u8>) -> TensorStorage<PlainAllocator> {
    TensorStorage::from_external_bytes(data, PlainAllocator::default())
}

#[test]
fn strides_follow_row_major_formula() {
    assert_eq!(get_strides_from_shape(&vec![100, 50, 3]), vec![150, 3, 1]);
    assert_eq!(get_strides_from_shape(&vec![2, 3, 4]), vec![12, 4, 1]);
    assert_eq!(get_strides_from_shape(&vec![7]), vec![1]);
    assert_eq!(get_strides_from_shape(&vec![]), Vec::<usize>::new());
}

#[test]
fn construction_succeeds_on_matching_length() {
    let data: Vec<u8> = (0..24).collect();
    let t = Tensor::new(vec![2, 3, 4], 1, borrowed(data)).unwrap();
    assert_eq!(t.shape(), &vec![2, 3, 4]);
    assert_eq!(t.strides(), &vec![12, 4, 1]);
    assert_eq!(t.elem_size(), 1);
    assert_eq!(t.storage_len(), 24);
    assert_eq!(t.numel(), 24);
    t.release();
}

#[test]
fn offsets_match_row_major_formula_at_every_index() {
    let data: Vec<u8> = (0..24).collect();
    let t = Tensor::new(vec![2, 3, 4], 1, borrowed(data)).unwrap();
    for i in 0..2usize {
        for j in 0..3usize {
            for k in 0..4usize {
                let expected = i * 12 + j * 4 + k;
                assert_eq!(t.byte_offset(&vec![i, j, k]), Some(expected));
                assert_eq!(t.element(&vec![i, j, k]), Some(vec![expected as u8]));
            }
        }
    }
    t.release();
}

#[test]
fn offsets_scale_with_element_size() {
    let data: Vec<u8> = (0..12).collect();
    let t = Tensor::new(vec![3, 2], 2, borrowed(data)).unwrap();
    assert_eq!(t.numel(), 6);
    assert_eq!(t.byte_offset(&vec![0, 0]), Some(0));
    assert_eq!(t.byte_offset(&vec![1, 0]), Some(4));
    assert_eq!(t.byte_offset(&vec![2, 1]), Some(10));
    assert_eq!(t.element(&vec![2, 1]), Some(vec![10, 11]));
    t.release();
}

#[test]
fn out_of_range_indices_are_rejected() {
    let t = Tensor::new(vec![2, 3], 1, borrowed(vec![0; 6])).unwrap();
    assert_eq!(t.byte_offset(&vec![2, 0]), None);
    assert_eq!(t.byte_offset(&vec![0, 3]), None);
    assert_eq!(t.byte_offset(&vec![0]), None);
    assert_eq!(t.byte_offset(&vec![0, 0, 0]), None);
    assert_eq!(t.element(&vec![1, 3]), None);
    t.release();
}

#[test]
fn construction_fails_on_mismatched_length() {
    let r = Tensor::new(vec![2, 3], 1, borrowed(vec![0; 5]));
    assert_eq!(r.err(), Some(TensorError::ShapeMismatch));
    let r = Tensor::new(vec![2, 3], 2, borrowed(vec![0; 6]));
    assert_eq!(r.err(), Some(TensorError::ShapeMismatch));
    let r = Tensor::new(vec![usize::MAX, usize::MAX], 1, borrowed(vec![0; 4]));
    assert_eq!(r.err(), Some(TensorError::ShapeMismatch));
}

#[test]
fn zero_sized_dimension_matches_empty_storage() {
    let t = Tensor::new(vec![0, 4], 1, borrowed(Vec::new())).unwrap();
    assert_eq!(t.numel(), 0);
    assert_eq!(t.byte_offset(&vec![0, 0]), None);
    t.release();
}

#[test]
fn from_shape_allocates_owned_storage() {
    let t = Tensor::<PlainAllocator>::from_shape(vec![10, 10], 3, PlainAllocator::default())
        .unwrap();
    assert_eq!(t.storage_len(), 300);
    assert_eq!(t.element(&vec![9, 9]), Some(vec![0, 0, 0]));
    assert_eq!(t.release(), ReleaseKind::Freed);
}

#[test]
fn from_shape_rejects_unallocatable_shape() {
    let r = Tensor::<PlainAllocator>::from_shape(vec![usize::MAX, 2], 1, PlainAllocator::default());
    assert_eq!(
        r.err(),
        Some(TensorError::Allocation(TensorAllocatorError::LayoutError))
    );
}

#[test]
fn reshape_revalidates_byte_length() {
    let data: Vec<u8> = (0..12).collect();
    let mut t = Tensor::new(vec![2, 6], 1, borrowed(data)).unwrap();
    assert_eq!(t.reshape(vec![3, 4]), Ok(()));
    assert_eq!(t.shape(), &vec![3, 4]);
    assert_eq!(t.strides(), &vec![4, 1]);
    assert_eq!(t.byte_offset(&vec![2, 3]), Some(11));

    assert_eq!(t.reshape(vec![5, 2]), Err(TensorError::ShapeMismatch));
    assert_eq!(t.shape(), &vec![3, 4]);
    t.release();
}
