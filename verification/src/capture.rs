//! Capture session: orchestrates the producer lifecycle (idle, playing,
//! closed) and adapts each produced buffer into the bounded frame ring, from
//! which the consumer pulls tensors built over the buffer's own bytes.

use vstd::prelude::*;

use crate::allocator::CpuAllocator;
use crate::frame::{frame_shape, frame_wf, FrameBuffer, FRAME_CHANNELS};
use crate::parent_deallocator::ParentDeallocator;
use crate::ring::{push_model, FrameRing, RING_CAPACITY};
use crate::storage::TensorStorage;
use crate::tensor::Tensor;

verus! {

/// An error from the capture session.
#[derive(Debug, Clone, Copy, PartialEq, Eq, Structural)]
pub enum StreamCaptureError {
    /// The ring's lock was found in a poisoned, unusable state. Fatal to
    /// the session: it should be closed and discarded, not retried.
    SynchronizationFailure,
    /// The producer rejected a lifecycle signal — it could not transition
    /// state, or a buffer arrived outside the playing state. The session is
    /// considered unusable.
    ProducerSignalFailure,
    /// A single produced buffer was malformed or unreadable. Recoverable:
    /// only that frame is dropped, the session carries on.
    FrameExtractionFailure,
}

/// The lifecycle state of a capture session. Closed is terminal: restarting
/// requires a new session.
#[derive(Debug, Clone, Copy, PartialEq, Eq, Structural)]
pub enum SessionState {
    /// Constructed; the ring is empty and the producer is not running.
    Idle,
    /// The producer is running and may hand over buffers concurrently with
    /// consumer pulls.
    Playing,
    /// The producer was signalled to stop; the ring has been cleared.
    Closed,
}

/// The external-owner handle attached to a grabbed frame's tensor: it
/// stands for the producer that owns the frame's bytes. Dropping the tensor
/// storage's handle is what hands the buffer back, so the notification
/// itself has nothing left to do.
#[derive(Debug, Clone, Copy)]
pub struct FrameParent;

impl ParentDeallocator for FrameParent {
    fn dealloc(&self) {
    }
}

/// A tensor built over a grabbed frame's bytes, owned via the
/// external-owner handle rather than by the local allocator.
pub type FrameTensor = Tensor<CpuAllocator<FrameParent>>;

/// A capture session: the producer lifecycle plus the bounded frame
/// hand-off between the producer's callback and the consumer's pull.
///
/// The producer itself — pipeline construction, callback registration, the
/// lock around the ring — lives with the caller; the session holds the
/// state machine and the ring, so everything it does is a plain transition
/// from state and event to next state and action.
pub struct StreamCapture {
    state: SessionState,
    ring: FrameRing,
}

impl StreamCapture {
    /// The current lifecycle state.
    pub closed spec fn spec_state(&self) -> SessionState {
        self.state
    }

    /// The frames waiting in the ring, oldest first.
    pub closed spec fn frames(&self) -> Seq<FrameBuffer> {
        self.ring.frames()
    }

    /// Session invariant: the ring is within capacity, every waiting frame
    /// is well formed, and outside the playing state the ring is empty.
    pub open spec fn wf(&self) -> bool {
        &&& self.frames().len() <= RING_CAPACITY
        &&& forall|i: int| 0 <= i < self.frames().len() ==> frame_wf(#[trigger] self.frames()[i])
        &&& self.spec_state() != SessionState::Playing ==> self.frames().len() == 0
    }

    /// A fresh session: idle, with an empty ring.
    pub fn new() -> (r: StreamCapture)
        ensures
            r.wf(),
            r.spec_state() == SessionState::Idle,
            r.frames().len() == 0,
    {
        StreamCapture { state: SessionState::Idle, ring: FrameRing::new() }
    }

    /// The current lifecycle state.
    pub fn state(&self) -> (r: SessionState)
        ensures
            r == self.spec_state(),
    {
        self.state
    }

    /// The number of frames waiting in the ring.
    pub fn pending_frames(&self) -> (r: usize)
        ensures
            r == self.frames().len(),
    {
        self.ring.len()
    }

    /// Drops stale frames from any previous run and transitions the session
    /// to playing. Starting a closed session fails — closed is terminal and
    /// a new session is required — and leaves the session untouched.
    pub fn start(&mut self) -> (r: Result<(), StreamCaptureError>)
        requires
            old(self).wf(),
        ensures
            final(self).wf(),
            r is Ok <==> old(self).spec_state() != SessionState::Closed,
            r is Ok ==> final(self).spec_state() == SessionState::Playing
                && final(self).frames().len() == 0,
            r matches Err(e) ==> e == StreamCaptureError::ProducerSignalFailure && *final(self)
                == *old(self),
    {
        match self.state {
            SessionState::Closed => Err(StreamCaptureError::ProducerSignalFailure),
            _ => {
                let stale = self.ring.clear();
                let _ = stale;
                self.state = SessionState::Playing;
                Ok(())
            },
        }
    }

    /// The producer-side hand-off, one call per produced buffer: validates
    /// the announced dimensions against the byte length and appends the
    /// frame to the ring, evicting and handing back the oldest frame when
    /// the ring is already full — the producer never blocks and never waits
    /// for the consumer.
    ///
    /// A buffer whose byte length does not match its announced dimensions
    /// is a recoverable extraction failure: only that frame is dropped. A
    /// buffer arriving while the session is not playing is refused and the
    /// ring is left untouched.
    pub fn push_frame(&mut self, data: Vec<u8>, width: usize, height: usize) -> (r: Result<
        Option<FrameBuffer>,
        StreamCaptureError,
    >)
        requires
            old(self).wf(),
        ensures
            final(self).wf(),
            final(self).spec_state() == old(self).spec_state(),
            old(self).spec_state() != SessionState::Playing ==> *final(self) == *old(self) && (
            r matches Err(e) && e == StreamCaptureError::ProducerSignalFailure),
            old(self).spec_state() == SessionState::Playing && !frame_data_ok(
                data@,
                width,
                height,
            ) ==> *final(self) == *old(self) && (r matches Err(e) && e
                == StreamCaptureError::FrameExtractionFailure),
            old(self).spec_state() == SessionState::Playing && frame_data_ok(
                data@,
                width,
                height,
            ) ==> final(self).frames() == push_model(
                old(self).frames(),
                (FrameBuffer { data, width, height }),
            ) && (r matches Ok(evicted) ==> {
                &&& old(self).frames().len() < RING_CAPACITY ==> evicted is None
                &&& old(self).frames().len() == RING_CAPACITY ==> evicted == Some(
                    old(self).frames()[0],
                )
            }) && r is Ok,
    {
        match self.state {
            SessionState::Playing => {
                match FrameBuffer::new(data, width, height) {
                    Some(f) => {
                        let evicted = self.ring.push(f);
                        proof {
                            let fs = old(self).frames();
                            assert forall|i: int|
                                0 <= i < self.frames().len() implies frame_wf(
                                #[trigger] self.frames()[i],
                            ) by {
                                if fs.len() < RING_CAPACITY {
                                    assert(self.frames() == fs.push(f));
                                } else {
                                    assert(self.frames() == fs.drop_first().push(f));
                                }
                            }
                        }
                        Ok(evicted)
                    },
                    None => Err(StreamCaptureError::FrameExtractionFailure),
                }
            },
            _ => Err(StreamCaptureError::ProducerSignalFailure),
        }
    }

    /// The consumer-side pull: pops the oldest frame, if one is waiting,
    /// and builds a tensor of shape height × width × channels directly over
    /// the frame's bytes, owned via the external-owner handle so that the
    /// producer's buffer is handed back only when the tensor's storage is
    /// released. An empty ring is the normal "no frame yet" outcome, not an
    /// error; grabbing never fails in steady state.
    ///
    /// Grabbing is permitted in every lifecycle state: outside playing the
    /// ring is empty by invariant, so the call simply yields no frame.
    pub fn grab(&mut self) -> (r: Result<Option<FrameTensor>, StreamCaptureError>)
        requires
            old(self).wf(),
        ensures
            final(self).wf(),
            final(self).spec_state() == old(self).spec_state(),
            r is Ok,
            old(self).frames().len() == 0 ==> (r matches Ok(t) && t is None)
                && final(self).frames() == old(self).frames(),
            old(self).frames().len() > 0 ==> final(self).frames() == old(self).frames().drop_first()
                && (r matches Ok(opt) ==> opt matches Some(t) && {
                let f = old(self).frames()[0];
                &&& t.wf()
                &&& t.shape_spec() == frame_shape(f)
                &&& t.elem_size_spec() == 1
                &&& t.bytes() == f.data@
                &&& t.spec_delegates()
            }),
    {
        match self.ring.pop_oldest() {
            Some(f) => {
                proof {
                    assert(frame_wf(old(self).frames()[0]));
                }
                let FrameBuffer { data, width, height } = f;
                let shape = vec![height, width, FRAME_CHANNELS];
                proof {
                    assert(shape@ =~= frame_shape(old(self).frames()[0]));
                }
                let storage = TensorStorage::from_external_bytes(
                    data,
                    CpuAllocator::with_parent_relation(FrameParent),
                );
                match Tensor::new(shape, 1, storage) {
                    Ok(t) => Ok(Some(t)),
                    // Unreachable: every frame in the ring is well formed, so
                    // construction over its bytes cannot mismatch.
                    Err(_) => Ok(None),
                }
            },
            None => Ok(None),
        }
    }

    /// Signals end of stream: the session transitions to the terminal
    /// closed state and the ring is cleared, releasing every pending frame.
    /// Idempotent — closing an already closed session is a no-op that
    /// leaves the ring empty — and never fails in this model; the caller
    /// that drives a real producer maps its shutdown failures on top.
    pub fn close(&mut self) -> (r: Result<(), StreamCaptureError>)
        requires
            old(self).wf(),
        ensures
            final(self).wf(),
            r is Ok,
            final(self).spec_state() == SessionState::Closed,
            final(self).frames().len() == 0,
    {
        let stale = self.ring.clear();
        let _ = stale;
        self.state = SessionState::Closed;
        Ok(())
    }
}

/// True when a buffer's byte length matches its announced dimensions:
/// exactly `height * width * 3` bytes, with representable strides.
pub open spec fn frame_data_ok(data: Seq<u8>, width: usize, height: usize) -> bool {
    crate::tensor::strides_representable(seq![height, width, FRAME_CHANNELS])
        && crate::tensor::shape_numel(seq![height, width, FRAME_CHANNELS]) == data.len()
}

} // verus!
