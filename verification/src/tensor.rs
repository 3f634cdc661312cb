//! Tensor: a shape and its derived row-major strides over a storage, with
//! element access that is proven to stay inside the storage's bytes.

use vstd::prelude::*;

use crate::allocator::{ReleaseKind, TensorAllocator, TensorAllocatorError, TensorLayout};
use crate::storage::TensorStorage;

verus! {

/// An error from a tensor operation.
#[derive(Debug, Clone, Copy, PartialEq, Eq, Structural)]
pub enum TensorError {
    /// The declared shape's element count times the element size does not
    /// equal the storage's byte length.
    ShapeMismatch,
    /// The allocator could not provide storage for the requested shape.
    Allocation(TensorAllocatorError),
}

/// The product of the dimension sizes from position `i` to the end of the
/// shape; the product of the empty tail is 1.
pub open spec fn suffix_product(shape: Seq<usize>, i: int) -> int
    decreases shape.len() - i
        when 0 <= i <= shape.len()
{
    if i == shape.len() {
        1
    } else {
        shape[i] * suffix_product(shape, i + 1)
    }
}

/// The number of elements a shape describes: the product of all its
/// dimension sizes.
pub open spec fn shape_numel(shape: Seq<usize>) -> int {
    suffix_product(shape, 0)
}

/// True when every suffix product of the shape fits in `usize`, so that the
/// row-major stride of every dimension is representable.
pub open spec fn strides_representable(shape: Seq<usize>) -> bool {
    forall|i: int| 0 <= i <= shape.len() ==> suffix_product(shape, i) <= usize::MAX
}

/// True when a shape, an element size and a storage byte length agree:
/// the strides are representable and `numel * elem_size` is exactly the
/// storage length.
pub open spec fn shape_fits(shape: Seq<usize>, elem_size: usize, storage_len: int) -> bool {
    strides_representable(shape) && shape_numel(shape) * elem_size == storage_len
}

/// True when a shape and element size describe a region a system allocator
/// could provide: representable strides and a total byte size within
/// `isize::MAX`.
pub open spec fn alloc_shape_ok(shape: Seq<usize>, elem_size: usize) -> bool {
    strides_representable(shape) && shape_numel(shape) * elem_size <= isize::MAX
}

/// True when `index` names one element of a tensor of the given shape.
pub open spec fn valid_index(index: Seq<usize>, shape: Seq<usize>) -> bool {
    index.len() == shape.len() && forall|i: int|
        0 <= i < index.len() ==> index[i] < shape[i]
}

/// The element offset that the row-major stride formula assigns to `index`,
/// summed from position `i` to the end:
/// `index[i] * suffix_product(i + 1) + ...`.
pub open spec fn offset_from(index: Seq<usize>, shape: Seq<usize>, i: int) -> int
    decreases index.len() - i
        when 0 <= i <= index.len()
{
    if i == index.len() {
        0
    } else {
        index[i] * suffix_product(shape, i + 1) + offset_from(index, shape, i + 1)
    }
}

/// The linear element offset of `index` under dense row-major packing.
pub open spec fn linear_offset(index: Seq<usize>, shape: Seq<usize>) -> int {
    offset_from(index, shape, 0)
}

/// For a valid index, the tail of the row-major offset sum stays strictly
/// below the matching suffix product, which is itself at least 1. This is
/// what keeps every element access inside the storage.
proof fn lemma_offset_bound(index: Seq<usize>, shape: Seq<usize>, i: int)
    requires
        0 <= i <= index.len(),
        valid_index(index, shape),
    ensures
        0 <= offset_from(index, shape, i),
        offset_from(index, shape, i) <= suffix_product(shape, i) - 1,
        suffix_product(shape, i) >= 1,
    decreases index.len() - i,
{
    if i == index.len() {
    } else {
        lemma_offset_bound(index, shape, i + 1);
        let s1 = suffix_product(shape, i + 1);
        let tail = offset_from(index, shape, i + 1);
        assert(index[i] * s1 >= 0) by (nonlinear_arith)
            requires
                index[i] >= 0,
                s1 >= 1,
        ;
        assert(index[i] * s1 + s1 <= shape[i] * s1) by (nonlinear_arith)
            requires
                index[i] + 1 <= shape[i],
                s1 >= 1,
        ;
        assert(shape[i] * s1 >= 1) by (nonlinear_arith)
            requires
                shape[i] >= 1,
                s1 >= 1,
        ;
        assert(suffix_product(shape, i) == shape[i] * s1);
        assert(offset_from(index, shape, i) == index[i] * s1 + tail);
    }
}

/// Computes the row-major strides of a shape: the stride of the last
/// dimension is 1 element, and the stride of dimension `i` is the product of
/// all dimension sizes after `i`.
pub fn get_strides_from_shape(shape: &Vec<usize>) -> (r: Vec<usize>)
    requires
        strides_representable(shape@),
    ensures
        r@.len() == shape@.len(),
        forall|i: int| 0 <= i < shape@.len() ==> r@[i] == suffix_product(shape@, i + 1),
{
    let n = shape.len();
    // Walk the shape from the back, collecting the strides in reverse order.
    let mut rev: Vec<usize> = Vec::new();
    let mut acc: usize = 1;
    let mut k: usize = 0;
    while k < n
        invariant
            k <= n,
            n == shape@.len(),
            strides_representable(shape@),
            rev@.len() == k,
            acc == suffix_product(shape@, n - k),
            forall|j: int| 0 <= j < k ==> rev@[j] == suffix_product(shape@, n - j),
        decreases n - k,
    {
        rev.push(acc);
        let idx = n - 1 - k;
        assert(suffix_product(shape@, idx as int) == shape@[idx as int] * suffix_product(
            shape@,
            idx + 1,
        ));
        acc = shape[idx] * acc;
        k += 1;
    }
    let mut r: Vec<usize> = Vec::new();
    let mut i: usize = 0;
    while i < n
        invariant
            i <= n,
            n == shape@.len(),
            rev@.len() == n,
            r@.len() == i,
            forall|j: int| 0 <= j < n ==> rev@[j] == suffix_product(shape@, n - j),
            forall|j: int| 0 <= j < i ==> r@[j] == suffix_product(shape@, j + 1),
        decreases n - i,
    {
        r.push(rev[n - 1 - i]);
        i += 1;
    }
    r
}

/// Computes the element count of a shape, reporting `None` when some
/// row-major stride (a suffix product) would not fit in `usize`.
fn checked_numel(shape: &Vec<usize>) -> (r: Option<usize>)
    ensures
        r is Some <==> strides_representable(shape@),
        r matches Some(n) ==> n == shape_numel(shape@),
{
    let n = shape.len();
    let mut acc: usize = 1;
    let mut k: usize = 0;
    while k < n
        invariant
            k <= n,
            n == shape@.len(),
            acc == suffix_product(shape@, n - k),
            forall|i: int| n - k <= i <= n ==> suffix_product(shape@, i) <= usize::MAX,
        decreases n - k,
    {
        let idx = n - 1 - k;
        assert(suffix_product(shape@, idx as int) == shape@[idx as int] * suffix_product(
            shape@,
            idx + 1,
        ));
        match shape[idx].checked_mul(acc) {
            Some(next) => {
                acc = next;
                k += 1;
            },
            None => {
                return None;
            },
        }
    }
    Some(acc)
}

/// A shape, its derived row-major strides, and the storage holding the
/// element bytes.
///
/// Invariant: the storage's byte length is exactly
/// `product(shape) * elem_size`, and each stride is the suffix product the
/// row-major formula prescribes — so the element layout stays interpretable
/// as a dense array matching the shape even when the bytes are borrowed from
/// an external owner.
pub struct Tensor<A: TensorAllocator> {
    shape: Vec<usize>,
    strides: Vec<usize>,
    elem_size: usize,
    storage: TensorStorage<A>,
}

impl<A: TensorAllocator> Tensor<A> {
    /// The ordered dimension sizes.
    pub closed spec fn shape_spec(&self) -> Seq<usize> {
        self.shape@
    }

    /// The per-dimension element strides.
    pub closed spec fn strides_spec(&self) -> Seq<usize> {
        self.strides@
    }

    /// The byte size of one element.
    pub closed spec fn elem_size_spec(&self) -> usize {
        self.elem_size
    }

    /// The bytes of the underlying storage.
    pub closed spec fn bytes(&self) -> Seq<u8> {
        self.storage.bytes()
    }

    /// True when releasing this tensor's storage delegates to an external
    /// owner rather than freeing directly.
    pub open spec fn spec_delegates(&self) -> bool {
        self.spec_storage().spec_delegates()
    }

    /// The underlying storage.
    pub closed spec fn spec_storage(&self) -> TensorStorage<A> {
        self.storage
    }

    /// Well-formedness: the byte-length invariant and the stride table.
    pub open spec fn wf(&self) -> bool {
        &&& self.elem_size_spec() >= 1
        &&& strides_representable(self.shape_spec())
        &&& shape_numel(self.shape_spec()) * self.elem_size_spec() == self.bytes().len()
        &&& self.strides_spec().len() == self.shape_spec().len()
        &&& forall|i: int|
            0 <= i < self.shape_spec().len() ==> self.strides_spec()[i] == suffix_product(
                self.shape_spec(),
                i + 1,
            )
    }

    /// Builds a tensor over an existing storage, validating that the
    /// storage's byte length matches `product(shape) * elem_size`. On a
    /// mismatch the storage is released (exactly once, along its own
    /// ownership path) and `ShapeMismatch` is reported; a mismatched tensor
    /// is never produced.
    pub fn new(shape: Vec<usize>, elem_size: usize, storage: TensorStorage<A>) -> (r: Result<
        Self,
        TensorError,
    >)
        requires
            elem_size >= 1,
        ensures
            r is Ok <==> shape_fits(shape@, elem_size, storage.bytes().len() as int),
            r matches Ok(t) ==> t.wf() && t.shape_spec() == shape@ && t.elem_size_spec()
                == elem_size && t.bytes() == storage.bytes() && t.spec_delegates()
                == storage.spec_delegates(),
            r matches Err(e) ==> e == TensorError::ShapeMismatch,
    {
        let storage_len = storage.len();
        match checked_numel(&shape) {
            Some(numel) => {
                match numel.checked_mul(elem_size) {
                    Some(total) => {
                        if total == storage_len {
                            let strides = get_strides_from_shape(&shape);
                            Ok(Tensor { shape, strides, elem_size, storage })
                        } else {
                            storage.release();
                            Err(TensorError::ShapeMismatch)
                        }
                    },
                    None => {
                        storage.release();
                        Err(TensorError::ShapeMismatch)
                    },
                }
            },
            None => {
                storage.release();
                Err(TensorError::ShapeMismatch)
            },
        }
    }

    /// Builds a tensor over a region freshly obtained from `alloc` (the
    /// owned case). A shape too large for any allocation is rejected as a
    /// layout error; an allocator that cannot obtain the region reports
    /// that explicitly — a usable tensor is never produced from a failed
    /// allocation.
    pub fn from_shape(shape: Vec<usize>, elem_size: usize, alloc: A) -> (r: Result<
        Self,
        TensorError,
    >)
        requires
            elem_size >= 1,
        ensures
            r matches Ok(t) ==> t.wf() && t.shape_spec() == shape@ && t.elem_size_spec()
                == elem_size && t.bytes().len() == shape_numel(shape@) * elem_size
                && t.spec_delegates() == alloc.spec_delegates() && alloc_shape_ok(shape@, elem_size),
            r matches Err(e) ==> (e == TensorError::Allocation(TensorAllocatorError::LayoutError)
                && !alloc_shape_ok(shape@, elem_size)) || (e == TensorError::Allocation(
                TensorAllocatorError::NullPointer,
            ) && alloc_shape_ok(shape@, elem_size)),
    {
        match checked_numel(&shape) {
            Some(numel) => {
                match numel.checked_mul(elem_size) {
                    Some(total) => {
                        match TensorLayout::from_size_align(total, 1) {
                            Ok(layout) => {
                                proof {
                                    assert(1usize & ((1usize - 1) as usize) == 0) by (bit_vector);
                                }
                                match TensorStorage::new(&layout, alloc) {
                                    Ok(storage) => {
                                        match Tensor::new(shape, elem_size, storage) {
                                            Ok(t) => Ok(t),
                                            Err(_) => Err(TensorError::ShapeMismatch),
                                        }
                                    },
                                    Err(e) => Err(TensorError::Allocation(e)),
                                }
                            },
                            Err(_) => {
                                proof {
                                    assert(1usize & ((1usize - 1) as usize) == 0) by (bit_vector);
                                }
                                Err(TensorError::Allocation(TensorAllocatorError::LayoutError))
                            },
                        }
                    },
                    None => Err(TensorError::Allocation(TensorAllocatorError::LayoutError)),
                }
            },
            None => Err(TensorError::Allocation(TensorAllocatorError::LayoutError)),
        }
    }

    /// The ordered dimension sizes.
    pub fn shape(&self) -> (r: &Vec<usize>)
        ensures
            r@ == self.shape_spec(),
    {
        &self.shape
    }

    /// The per-dimension element strides.
    pub fn strides(&self) -> (r: &Vec<usize>)
        ensures
            r@ == self.strides_spec(),
    {
        &self.strides
    }

    /// The byte size of one element.
    pub fn elem_size(&self) -> (r: usize)
        ensures
            r == self.elem_size_spec(),
    {
        self.elem_size
    }

    /// The byte length of the underlying storage.
    pub fn storage_len(&self) -> (r: usize)
        ensures
            r == self.bytes().len(),
    {
        self.storage.len()
    }

    /// The number of elements the shape describes.
    pub fn numel(&self) -> (r: usize)
        requires
            self.wf(),
        ensures
            r == shape_numel(self.shape_spec()),
    {
        let r = match checked_numel(&self.shape) {
            Some(n) => n,
            None => 0,
        };
        r
    }

    /// Converts an index tuple to the linear byte offset of that element,
    /// exactly as the row-major stride formula predicts; out-of-range
    /// indices yield `None` rather than an offset outside the storage.
    pub fn byte_offset(&self, index: &Vec<usize>) -> (r: Option<usize>)
        requires
            self.wf(),
        ensures
            r is Some <==> valid_index(index@, self.shape_spec()),
            r matches Some(off) ==> off == linear_offset(index@, self.shape_spec())
                * self.elem_size_spec() && off + self.elem_size_spec() <= self.bytes().len(),
    {
        let n = self.shape.len();
        if index.len() != n {
            return None;
        }
        let mut i: usize = 0;
        while i < n
            invariant
                i <= n,
                n == self.shape_spec().len(),
                index@.len() == n,
                forall|j: int| 0 <= j < i ==> index@[j] < self.shape_spec()[j],
            decreases n - i,
        {
            if index[i] >= self.shape[i] {
                return None;
            }
            i += 1;
        }
        proof {
            lemma_offset_bound(index@, self.shape_spec(), 0);
            assert(shape_numel(self.shape_spec()) <= shape_numel(self.shape_spec())
                * self.elem_size_spec()) by (nonlinear_arith)
                requires
                    self.elem_size_spec() >= 1,
                    shape_numel(self.shape_spec()) >= 0,
            ;
        }
        let ghost shape = self.shape_spec();
        let ghost target = linear_offset(index@, shape);
        let mut acc: usize = 0;
        let mut k: usize = 0;
        while k < n
            invariant
                k <= n,
                n == shape.len(),
                shape == self.shape_spec(),
                index@.len() == n,
                self.wf(),
                valid_index(index@, shape),
                target == linear_offset(index@, shape),
                target <= shape_numel(shape) - 1,
                shape_numel(shape) <= self.bytes().len(),
                acc + offset_from(index@, shape, k as int) == target,
            decreases n - k,
        {
            proof {
                lemma_offset_bound(index@, shape, k as int);
                lemma_offset_bound(index@, shape, k + 1);
                assert(offset_from(index@, shape, k as int) == index@[k as int] * suffix_product(
                    shape,
                    k + 1,
                ) + offset_from(index@, shape, k + 1));
            }
            let term = index[k] * self.strides[k];
            acc = acc + term;
            k += 1;
        }
        let slen = self.storage.len();
        proof {
            assert(acc == target);
            assert(acc * self.elem_size_spec() + self.elem_size_spec() <= self.bytes().len())
                by (nonlinear_arith)
                requires
                    acc <= shape_numel(self.shape_spec()) - 1,
                    self.elem_size_spec() >= 1,
                    shape_numel(self.shape_spec()) * self.elem_size_spec() == self.bytes().len(),
            ;
            assert(acc * self.elem_size_spec() <= slen);
        }
        Some(acc * self.elem_size)
    }

    /// Reads the bytes of one element; `None` exactly on out-of-range
    /// indices. Element access never reads outside the storage.
    pub fn element(&self, index: &Vec<usize>) -> (r: Option<Vec<u8>>)
        requires
            self.wf(),
        ensures
            r is Some <==> valid_index(index@, self.shape_spec()),
            r matches Some(b) ==> {
                let off = linear_offset(index@, self.shape_spec()) * self.elem_size_spec();
                b@ == self.bytes().subrange(off, off + self.elem_size_spec())
            },
    {
        match self.byte_offset(index) {
            Some(off) => {
                let slen = self.storage.len();
                let mut b: Vec<u8> = Vec::new();
                let mut j: usize = 0;
                while j < self.elem_size
                    invariant
                        j <= self.elem_size_spec(),
                        off + self.elem_size_spec() <= self.bytes().len(),
                        self.bytes().len() == slen,
                        b@.len() == j,
                        forall|t: int| 0 <= t < j ==> b@[t] == self.bytes()[off + t],
                        self.wf(),
                    decreases self.elem_size_spec() - j,
                {
                    b.push(self.storage.read(off + j));
                    j += 1;
                }
                proof {
                    assert(b@ =~= self.bytes().subrange(
                        off as int,
                        off + self.elem_size_spec(),
                    ));
                }
                Some(b)
            },
            None => None,
        }
    }

    /// Re-validates the product constraint against the existing storage and
    /// installs the new shape; a shape whose byte size differs from the
    /// storage is rejected and the tensor is left unchanged.
    pub fn reshape(&mut self, new_shape: Vec<usize>) -> (r: Result<(), TensorError>)
        requires
            old(self).wf(),
        ensures
            final(self).wf(),
            r is Ok <==> shape_fits(
                new_shape@,
                old(self).elem_size_spec(),
                old(self).bytes().len() as int,
            ),
            r is Ok ==> final(self).shape_spec() == new_shape@,
            r is Err ==> *final(self) == *old(self),
            r matches Err(e) ==> e == TensorError::ShapeMismatch,
            final(self).elem_size_spec() == old(self).elem_size_spec(),
            final(self).bytes() == old(self).bytes(),
            final(self).spec_delegates() == old(self).spec_delegates(),
    {
        let storage_len = self.storage.len();
        match checked_numel(&new_shape) {
            Some(numel) => {
                match numel.checked_mul(self.elem_size) {
                    Some(total) => {
                        if total == storage_len {
                            let strides = get_strides_from_shape(&new_shape);
                            self.shape = new_shape;
                            self.strides = strides;
                            Ok(())
                        } else {
                            Err(TensorError::ShapeMismatch)
                        }
                    },
                    None => Err(TensorError::ShapeMismatch),
                }
            },
            None => Err(TensorError::ShapeMismatch),
        }
    }

    /// Releases the tensor's storage, exactly once, along its ownership
    /// path: freed directly when locally owned, delegated to the external
    /// owner when borrowed.
    pub fn release(self) -> (k: ReleaseKind)
        ensures
            k == (if self.spec_delegates() {
                ReleaseKind::Delegated
            } else {
                ReleaseKind::Freed
            }),
    {
        let Tensor { shape: _, strides: _, elem_size: _, storage } = self;
        storage.release()
    }
}

} // verus!
