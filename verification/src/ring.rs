//! Bounded frame ring: a fixed-capacity FIFO of frame handles with
//! overwrite-oldest semantics on overflow, built over a circular buffer.

use vstd::prelude::*;

use circular_buffer::CircularBuffer;

use crate::frame::FrameBuffer;

verus! {

/// The fixed capacity of the frame ring.
pub const RING_CAPACITY: usize = 5;

/// Declares `circular_buffer::CircularBuffer` so that its values can stand
/// in fields and signatures; they are opaque, described only through
/// [`cb_frames`] and the contracts of the functions below.
#[verifier::external_type_specification]
#[verifier::external_body]
#[verifier::reject_recursive_types(T)]
pub struct ExCircularBuffer<const N: usize, T>(CircularBuffer<N, T>);

/// The frames a circular buffer currently holds, oldest first.
pub uninterp spec fn cb_frames(b: CircularBuffer<5, FrameBuffer>) -> Seq<FrameBuffer>;

/// Relies on `CircularBuffer::new`: a fresh buffer is empty.
#[verifier::external_body]
fn cb_new() -> (r: CircularBuffer<5, FrameBuffer>)
    ensures
        cb_frames(r) == Seq::<FrameBuffer>::empty(),
{
    CircularBuffer::new()
}

/// Relies on `CircularBuffer::push_back`: the element is appended at the
/// back; when the buffer is full, the element at the front — the oldest —
/// is overwritten and returned.
#[verifier::external_body]
fn cb_push_back(b: &mut CircularBuffer<5, FrameBuffer>, f: FrameBuffer) -> (evicted: Option<
    FrameBuffer,
>)
    ensures
        cb_frames(*old(b)).len() < 5 ==> cb_frames(*final(b)) == cb_frames(*old(b)).push(f)
            && evicted is None,
        cb_frames(*old(b)).len() >= 5 ==> cb_frames(*final(b)) == cb_frames(
            *old(b),
        ).drop_first().push(f) && evicted == Some(cb_frames(*old(b))[0]),
{
    b.push_back(f)
}

/// Relies on `CircularBuffer::pop_front`: removes and returns the element
/// at the front — the oldest — or `None` when the buffer is empty.
#[verifier::external_body]
fn cb_pop_front(b: &mut CircularBuffer<5, FrameBuffer>) -> (r: Option<FrameBuffer>)
    ensures
        cb_frames(*old(b)).len() == 0 ==> r is None && cb_frames(*final(b)) == cb_frames(*old(b)),
        cb_frames(*old(b)).len() > 0 ==> r == Some(cb_frames(*old(b))[0]) && cb_frames(*final(b))
            == cb_frames(*old(b)).drop_first(),
{
    b.pop_front()
}

/// Relies on `CircularBuffer::len`: the number of elements currently held.
#[verifier::external_body]
fn cb_len(b: &CircularBuffer<5, FrameBuffer>) -> (r: usize)
    ensures
        r == cb_frames(*b).len(),
{
    b.len()
}

/// What one push leaves in a ring: the frame is appended, and when the ring
/// is already at capacity the oldest frame is evicted first.
pub open spec fn push_model(s: Seq<FrameBuffer>, f: FrameBuffer) -> Seq<FrameBuffer> {
    if s.len() < RING_CAPACITY {
        s.push(f)
    } else {
        s.drop_first().push(f)
    }
}

/// What a sequence of pushes, oldest first, leaves in a ring.
pub open spec fn pushes_model(s: Seq<FrameBuffer>, fs: Seq<FrameBuffer>) -> Seq<FrameBuffer>
    decreases fs.len(),
{
    if fs.len() == 0 {
        s
    } else {
        pushes_model(push_model(s, fs[0]), fs.drop_first())
    }
}

/// The at-most-`n` newest entries of a sequence, in order.
pub open spec fn newest(s: Seq<FrameBuffer>, n: int) -> Seq<FrameBuffer> {
    if s.len() <= n {
        s
    } else {
        s.subrange(s.len() - n, s.len() as int)
    }
}

/// The ring overflow law: pushing any sequence of frames into a ring leaves
/// exactly the `RING_CAPACITY` newest of the frames it would hold unbounded,
/// in push order — older frames are evicted oldest-first, and a future frame
/// is never observed before a past one.
pub proof fn lemma_ring_overflow(s: Seq<FrameBuffer>, fs: Seq<FrameBuffer>)
    requires
        s.len() <= RING_CAPACITY,
    ensures
        pushes_model(s, fs) == newest(s + fs, RING_CAPACITY as int),
    decreases fs.len(),
{
    if fs.len() == 0 {
        assert(s + fs =~= s);
    } else {
        let s1 = push_model(s, fs[0]);
        lemma_ring_overflow(s1, fs.drop_first());
        if s.len() < RING_CAPACITY {
            assert(s1 + fs.drop_first() =~= s + fs);
        } else {
            assert(s1 + fs.drop_first() =~= (s + fs).drop_first());
            let x = s + fs;
            assert(newest(x.drop_first(), RING_CAPACITY as int) =~= newest(
                x,
                RING_CAPACITY as int,
            ));
        }
    }
}

/// A fixed-capacity ordered collection of frame handles. Its length never
/// exceeds [`RING_CAPACITY`]; a push when full evicts the oldest entry and
/// hands it back for release before the new one is appended — FIFO eviction,
/// so the consumer sees the newest frames and never an out-of-order one.
pub struct FrameRing {
    buf: CircularBuffer<5, FrameBuffer>,
}

impl FrameRing {
    /// The frames currently held, oldest first.
    pub closed spec fn frames(&self) -> Seq<FrameBuffer> {
        cb_frames(self.buf)
    }

    /// The ring never holds more than its fixed capacity.
    pub open spec fn wf(&self) -> bool {
        self.frames().len() <= RING_CAPACITY
    }

    /// An empty ring.
    pub fn new() -> (r: FrameRing)
        ensures
            r.wf(),
            r.frames() == Seq::<FrameBuffer>::empty(),
    {
        FrameRing { buf: cb_new() }
    }

    /// The number of frames currently held.
    pub fn len(&self) -> (r: usize)
        ensures
            r == self.frames().len(),
    {
        cb_len(&self.buf)
    }

    /// Appends a frame. Never blocks and never fails: when the ring is full
    /// the oldest frame is evicted first and returned, so the caller can
    /// release it — data loss on overflow is the accepted trade-off that
    /// keeps the newest frames.
    pub fn push(&mut self, f: FrameBuffer) -> (evicted: Option<FrameBuffer>)
        requires
            old(self).wf(),
        ensures
            final(self).wf(),
            final(self).frames() == push_model(old(self).frames(), f),
            old(self).frames().len() < RING_CAPACITY ==> evicted is None,
            old(self).frames().len() == RING_CAPACITY ==> evicted == Some(old(self).frames()[0]),
    {
        cb_push_back(&mut self.buf, f)
    }

    /// Removes and returns the oldest frame, or `None` when the ring is
    /// empty.
    pub fn pop_oldest(&mut self) -> (r: Option<FrameBuffer>)
        requires
            old(self).wf(),
        ensures
            final(self).wf(),
            old(self).frames().len() == 0 ==> r is None && final(self).frames() == old(self).frames(),
            old(self).frames().len() > 0 ==> r == Some(old(self).frames()[0])
                && final(self).frames() == old(self).frames().drop_first(),
    {
        cb_pop_front(&mut self.buf)
    }

    /// Removes every frame, oldest first, and hands them back for release;
    /// the ring is left empty. On an empty ring this is a no-op that drains
    /// nothing.
    pub fn clear(&mut self) -> (drained: Vec<FrameBuffer>)
        requires
            old(self).wf(),
        ensures
            final(self).wf(),
            final(self).frames().len() == 0,
            drained@ == old(self).frames(),
    {
        let ghost orig = self.frames();
        let mut drained: Vec<FrameBuffer> = Vec::new();
        loop
            invariant
                self.wf(),
                drained@ + self.frames() == orig,
            ensures
                self.wf(),
                self.frames().len() == 0,
                drained@ + self.frames() == orig,
            decreases self.frames().len(),
        {
            match cb_pop_front(&mut self.buf) {
                Some(f) => {
                    drained.push(f);
                    proof {
                        assert(drained@ + self.frames() =~= orig);
                    }
                },
                None => {
                    break;
                },
            }
        }
        proof {
            assert(drained@ =~= orig);
        }
        drained
    }
}

} // verus!
