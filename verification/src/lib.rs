//! Typed multi-dimensional byte buffers for image data, paired with an
//! explicit ownership model for the underlying memory: a region is either
//! owned by the local allocator or borrowed from an external producer that
//! must be notified, exactly once, when the region is no longer needed.

pub mod allocator;
pub mod parent_deallocator;
pub mod capture;
pub mod frame;
pub mod ring;
pub mod storage;
pub mod tensor;

pub use crate::allocator::{CpuAllocator, ReleaseKind, TensorAllocator, TensorAllocatorError, TensorLayout};
pub use crate::capture::{FrameParent, FrameTensor, SessionState, StreamCapture, StreamCaptureError};
pub use crate::frame::FrameBuffer;
pub use crate::parent_deallocator::ParentDeallocator;
pub use crate::ring::{FrameRing, RING_CAPACITY};
pub use crate::storage::TensorStorage;
pub use crate::tensor::{get_strides_from_shape, Tensor, TensorError};
