use kornia::{FrameTensor, ReleaseKind, SessionState, StreamCapture, StreamCaptureError};

fn first_byte(t: &FrameTensor) -> u8 {
    let h = t.shape()[0];
    let w = t.shape()[1];
    assert!(h >= 1 && w >= 1);
    t.element(&vec![0, 0, 0]).unwrap()[0]
}

#[test]
fn grab_on_fresh_session_is_no_frame_not_an_error() {
    let mut session = StreamCapture::new();
    assert_eq!(session.state(), SessionState::Idle);
    session.start().unwrap();
    assert_eq!(session.state(), SessionState::Playing);
    let grabbed = session.grab().unwrap();
    assert!(grabbed.is_none());
}

#[test]
fn one_push_yields_one_tensor_of_the_announced_shape() {
    let mut session = StreamCapture::new();
    session.start().unwrap();
    let evicted = session.push_frame(vec![7; 100 * 50 * 3], 50, 100).unwrap();
    assert!(evicted.is_none());
    let t = session.grab().unwrap().expect("one frame is waiting");
    assert_eq!(t.shape(), &vec![100, 50, 3]);
    assert_eq!(t.storage_len(), 100 * 50 * 3);
    assert_eq!(t.element(&vec![99, 49, 2]), Some(vec![7]));
    // The tensor borrows the producer's bytes: release is delegated to the
    // external owner, never freed directly.
    assert_eq!(t.release(), ReleaseKind::Delegated);
    assert!(session.grab().unwrap().is_none());
}

#[test]
fn seven_frames_through_a_ring_of_five() {
    let mut session = StreamCapture::new();
    session.start().unwrap();
    let mut evicted_tags = Vec::new();
    for tag in 1..=7u8 {
        if let Some(old) = session.push_frame(vec![tag, 0, 0], 1, 1).unwrap() {
            evicted_tags.push(old.data[0]);
        }
    }
    assert_eq!(evicted_tags, vec![1, 2]);
    assert_eq!(session.pending_frames(), 5);
    let mut seen = Vec::new();
    while let Some(t) = session.grab().unwrap() {
        seen.push(first_byte(&t));
        assert_eq!(t.release(), ReleaseKind::Delegated);
    }
    assert_eq!(seen, vec![3, 4, 5, 6, 7]);
    assert_eq!(session.pending_frames(), 0);
}

#[test]
fn malformed_buffer_is_skipped_not_fatal() {
    let mut session = StreamCapture::new();
    session.start().unwrap();
    // 10 bytes can not be a 2 x 2 x 3 frame.
    let r = session.push_frame(vec![0; 10], 2, 2);
    assert_eq!(r.err(), Some(StreamCaptureError::FrameExtractionFailure));
    assert_eq!(session.pending_frames(), 0);
    // The session carries on: a well-formed frame still goes through.
    session.push_frame(vec![0; 12], 2, 2).unwrap();
    assert_eq!(session.pending_frames(), 1);
}

#[test]
fn push_outside_playing_is_refused() {
    let mut session = StreamCapture::new();
    let r = session.push_frame(vec![0; 3], 1, 1);
    assert_eq!(r.err(), Some(StreamCaptureError::ProducerSignalFailure));
    session.close().unwrap();
    let r = session.push_frame(vec![0; 3], 1, 1);
    assert_eq!(r.err(), Some(StreamCaptureError::ProducerSignalFailure));
}

#[test]
fn start_drops_stale_frames() {
    let mut session = StreamCapture::new();
    session.start().unwrap();
    session.push_frame(vec![1, 0, 0], 1, 1).unwrap();
    session.push_frame(vec![2, 0, 0], 1, 1).unwrap();
    assert_eq!(session.pending_frames(), 2);
    session.start().unwrap();
    assert_eq!(session.pending_frames(), 0);
    assert!(session.grab().unwrap().is_none());
}

#[test]
fn close_twice_is_idempotent_and_leaves_ring_empty() {
    let mut session = StreamCapture::new();
    session.start().unwrap();
    session.push_frame(vec![9, 9, 9], 1, 1).unwrap();
    assert_eq!(session.close(), Ok(()));
    assert_eq!(session.state(), SessionState::Closed);
    assert_eq!(session.pending_frames(), 0);
    assert_eq!(session.close(), Ok(()));
    assert_eq!(session.state(), SessionState::Closed);
    assert_eq!(session.pending_frames(), 0);
}

#[test]
fn closed_session_cannot_restart() {
    let mut session = StreamCapture::new();
    session.close().unwrap();
    assert_eq!(
        session.start(),
        Err(StreamCaptureError::ProducerSignalFailure)
    );
    assert_eq!(session.state(), SessionState::Closed);
}
