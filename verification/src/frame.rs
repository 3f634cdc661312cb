//! Frame handle: a borrowed-buffer descriptor produced by the capture
//! pipeline — the buffer's bytes plus the width and height announced by the
//! producer for that buffer.

use vstd::prelude::*;

use crate::tensor::{shape_numel, strides_representable, suffix_product};

verus! {

/// The number of interleaved channels in a captured frame.
pub const FRAME_CHANNELS: usize = 3;

/// A borrowed-buffer descriptor awaiting conversion into a tensor, or
/// release on eviction from the ring.
pub struct FrameBuffer {
    /// The buffer's bytes, as handed over by the producer.
    pub data: Vec<u8>,
    /// The width the producer announced for this buffer, in pixels.
    pub width: usize,
    /// The height the producer announced for this buffer, in pixels.
    pub height: usize,
}

/// The tensor shape a frame maps to: height, width, channels.
pub open spec fn frame_shape(f: FrameBuffer) -> Seq<usize> {
    seq![f.height, f.width, FRAME_CHANNELS]
}

/// A frame is well formed when its announced dimensions agree with its byte
/// length — `height * width * 3` bytes — and the resulting row-major
/// strides are representable, so a tensor can always be built over it.
pub open spec fn frame_wf(f: FrameBuffer) -> bool {
    strides_representable(frame_shape(f)) && shape_numel(frame_shape(f)) == f.data@.len()
}

/// Spells out the suffix products of a height-width-channels shape.
proof fn lemma_frame_shape_products(shape: Seq<usize>)
    requires
        shape.len() == 3,
    ensures
        suffix_product(shape, 3) == 1,
        suffix_product(shape, 2) == shape[2],
        suffix_product(shape, 1) == shape[1] * shape[2],
        suffix_product(shape, 0) == shape[0] * (shape[1] * shape[2]),
{
    assert(suffix_product(shape, 3) == 1);
    assert(suffix_product(shape, 2) == shape[2] * suffix_product(shape, 3));
    assert(suffix_product(shape, 1) == shape[1] * suffix_product(shape, 2));
    assert(suffix_product(shape, 0) == shape[0] * suffix_product(shape, 1));
    assert(shape[2] * 1 == shape[2]);
}

impl FrameBuffer {
    /// Validates a produced buffer against its announced dimensions. A
    /// buffer whose byte length is not exactly `height * width * 3` is
    /// malformed and yields `None`: the caller drops that single frame and
    /// carries on.
    pub fn new(data: Vec<u8>, width: usize, height: usize) -> (r: Option<FrameBuffer>)
        ensures
            ({
                let shape = seq![height, width, FRAME_CHANNELS];
                &&& r is Some <==> (strides_representable(shape) && shape_numel(shape)
                    == data@.len())
                &&& r matches Some(f) ==> f == (FrameBuffer { data, width, height }) && frame_wf(
                    f,
                )
            }),
    {
        let ghost shape = seq![height, width, FRAME_CHANNELS];
        proof {
            lemma_frame_shape_products(shape);
            assert(shape[0] == height && shape[1] == width && shape[2] == FRAME_CHANNELS);
        }
        let len = data.len();
        match FRAME_CHANNELS.checked_mul(width) {
            Some(row) => {
                proof {
                    assert(suffix_product(shape, 1) == row);
                }
                match row.checked_mul(height) {
                    Some(total) => {
                        proof {
                            assert(height * row == row * height) by (nonlinear_arith);
                            assert(suffix_product(shape, 0) == total);
                        }
                        if total == len {
                            let f = FrameBuffer { data, width, height };
                            proof {
                                assert(frame_shape(f) =~= shape);
                                assert forall|i: int| 0 <= i <= shape.len() implies suffix_product(
                                    shape,
                                    i,
                                ) <= usize::MAX by {
                                    lemma_frame_shape_products(shape);
                                    if i == 0 {
                                        assert(suffix_product(shape, 0) == total);
                                    } else if i == 1 {
                                        assert(suffix_product(shape, 1) == row);
                                    } else if i == 2 {
                                        assert(suffix_product(shape, 2) == FRAME_CHANNELS);
                                    } else {
                                        assert(suffix_product(shape, 3) == 1);
                                    }
                                }
                            }
                            Some(f)
                        } else {
                            None
                        }
                    },
                    None => {
                        proof {
                            assert(height * row == row * height) by (nonlinear_arith);
                            assert(suffix_product(shape, 0) > usize::MAX);
                        }
                        None
                    },
                }
            },
            None => {
                proof {
                    assert(suffix_product(shape, 1) > usize::MAX);
                }
                None
            },
        }
    }
}

} // verus!
