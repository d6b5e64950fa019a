use v4l2cap::capture::Capture;
use v4l2cap::capture::CaptureError;
use v4l2cap::capture::PoolSlot;
use v4l2cap::capture::SessionState;
use v4l2cap::capture::StartCommand;
use v4l2cap::sys::ioctl::v4l2_buf_type;
use v4l2cap::sys::ioctl::v4l2_buffer;
use v4l2cap::sys::ioctl::v4l2_memory;
use v4l2cap::sys::ioctl::v4l2_pix_format;
use v4l2cap::sys::ioctl::v4l2_colorspace;
use v4l2cap::sys::ioctl::v4l2_field;

fn test_format() -> v4l2_pix_format {
    v4l2_pix_format {
        width: 640,
        height: 480,
        pixelformat: v4l2cap::sys::ioctl::V4L2_PIX_FMT_YUYV,
        field: v4l2_field::V4L2_FIELD_NONE,
        bytesperline: 1280,
        sizeimage: 614400,
        colorspace: v4l2_colorspace::V4L2_COLORSPACE_SRGB,
        private: 0,
        rot_angle: 0,
    }
}

fn slot(length: u32, offset: u32) -> Option<PoolSlot> {
    Some(PoolSlot { length, offset })
}

fn prepared_session(n: u32) -> Capture {
    let mut c = Capture::opened(test_format());
    let slots: Vec<Option<PoolSlot>> = (0..n).map(|i| slot(4096, 4096 * i)).collect();
    c.prepare_mmapped(n as usize, n as usize, &slots).unwrap();
    c
}

fn streaming_session(n: u32) -> Capture {
    let mut c = prepared_session(n);
    let mut s = c.start().unwrap();
    while let Some(_cmd) = s.next_command() {
        s.record(true);
    }
    c.start_complete(&s).unwrap();
    c
}

fn dequeued(index: u32) -> v4l2_buffer {
    v4l2_buffer::query_template(
        v4l2_buf_type::V4L2_BUF_TYPE_VIDEO_CAPTURE,
        v4l2_memory::V4L2_MEMORY_MMAP,
        index,
    )
}

#[test]
fn it_works() {
    assert_eq!(2 + 2, 4);
}

#[test]
fn opened_session_has_no_pool() {
    let c = Capture::opened(test_format());
    assert_eq!(c.state(), SessionState::Opened);
    assert_eq!(c.pool_len(), 0);
    assert_eq!(c.pix_format(), test_format());
}

#[test]
fn prepare_pool_size_is_granted_count() {
    // The kernel granted as many buffers as were requested.
    let mut c = Capture::opened(test_format());
    let slots = vec![slot(100, 0), slot(100, 4096), slot(100, 8192)];
    assert!(c.prepare_mmapped(3, 3, &slots).is_ok());
    assert_eq!(c.state(), SessionState::Prepared);
    assert_eq!(c.pool_len(), 3);
    assert_eq!(c.pool()[1], PoolSlot { length: 100, offset: 4096 });
}

#[test]
fn prepare_pool_size_at_most_requested() {
    // The kernel granted fewer buffers than were requested: the pool holds
    // the granted count, which stays within the request.
    let mut c = Capture::opened(test_format());
    let slots = vec![slot(100, 0), slot(100, 4096)];
    assert!(c.prepare_mmapped(5, 2, &slots).is_ok());
    assert_eq!(c.pool_len(), 2);
    assert!(c.pool_len() <= 5);
}

#[test]
fn prepare_rejects_grant_above_request() {
    let mut c = Capture::opened(test_format());
    let slots = vec![slot(100, 0), slot(100, 4096), slot(100, 8192)];
    assert_eq!(c.prepare_mmapped(2, 3, &slots), Err(CaptureError::ControlError));
    assert_eq!(c.state(), SessionState::Opened);
}

#[test]
fn prepare_fails_whole_pool_on_one_denied_mapping() {
    let mut c = Capture::opened(test_format());
    let slots = vec![slot(100, 0), None, slot(100, 8192)];
    assert_eq!(c.prepare_mmapped(3, 3, &slots), Err(CaptureError::MappingError));
    assert_eq!(c.state(), SessionState::Opened);
    assert_eq!(c.pool_len(), 0);
}

#[test]
fn prepare_refused_while_prepared() {
    let mut c = prepared_session(2);
    let slots = vec![slot(100, 0)];
    assert_eq!(c.prepare_mmapped(1, 1, &slots), Err(CaptureError::ControlError));
    assert_eq!(c.pool_len(), 2);
}

#[test]
fn start_enqueues_ascending_then_stream_on() {
    let c = prepared_session(3);
    let mut s = c.start().unwrap();
    let mut commands = Vec::new();
    while let Some(cmd) = s.next_command() {
        commands.push(cmd);
        s.record(true);
    }
    assert_eq!(
        commands,
        vec![
            StartCommand::Enqueue(0),
            StartCommand::Enqueue(1),
            StartCommand::Enqueue(2),
            StartCommand::StreamOn,
        ]
    );
    assert!(s.succeeded());
}

#[test]
fn start_aborts_on_failed_enqueue() {
    // The enqueue of index 1 fails: index 2 is never enqueued and stream-on
    // is never issued.
    let mut c = prepared_session(3);
    let mut s = c.start().unwrap();
    let mut commands = Vec::new();
    let mut step = 0;
    while let Some(cmd) = s.next_command() {
        commands.push(cmd);
        s.record(step != 1);
        step += 1;
    }
    assert_eq!(commands, vec![StartCommand::Enqueue(0), StartCommand::Enqueue(1)]);
    assert!(!commands.contains(&StartCommand::StreamOn));
    assert!(s.failed());
    assert_eq!(c.start_complete(&s), Err(CaptureError::ControlError));
    // Partial enqueue state is left as-is: index 0 stays queued.
    assert_eq!(c.state(), SessionState::Prepared);
    assert_eq!(c.kernel_owned().clone(), vec![true, false, false]);
}

#[test]
fn start_refused_while_opened() {
    let c = Capture::opened(test_format());
    assert!(matches!(c.start(), Err(CaptureError::ControlError)));
}

#[test]
fn completed_start_is_streaming_with_all_queued() {
    let c = streaming_session(3);
    assert_eq!(c.state(), SessionState::Streaming);
    assert_eq!(c.kernel_owned().clone(), vec![true, true, true]);
}

#[test]
fn take_and_return_keep_pool_indices() {
    // Complete take/return cycles, in an order the kernel might report:
    // the set of valid pool indices never changes.
    let mut c = streaming_session(3);
    let before = c.pool().clone();
    for &i in &[1u32, 0, 2, 1, 1, 2, 0] {
        let idx = c.take_frame(&dequeued(i)).unwrap();
        assert_eq!(idx, i as usize);
        c.return_frame(&dequeued(i)).unwrap();
    }
    assert_eq!(*c.pool(), before);
    assert_eq!(c.kernel_owned().clone(), vec![true, true, true]);
    assert_eq!(c.state(), SessionState::Streaming);
}

#[test]
fn take_frame_refuses_unknown_index() {
    let mut c = streaming_session(2);
    assert_eq!(c.take_frame(&dequeued(2)), Err(CaptureError::ControlError));
}

#[test]
fn take_frame_refuses_frame_not_queued() {
    let mut c = streaming_session(2);
    assert_eq!(c.take_frame(&dequeued(0)), Ok(0));
    assert_eq!(c.take_frame(&dequeued(0)), Err(CaptureError::ControlError));
}

#[test]
fn return_frame_refuses_queued_frame() {
    let mut c = streaming_session(2);
    assert_eq!(c.return_frame(&dequeued(0)), Err(CaptureError::ControlError));
}

#[test]
fn stop_succeeds_with_frames_outstanding() {
    // Stop straight from Streaming, with a frame taken and never returned:
    // no draining is required first.
    let mut c = streaming_session(2);
    c.take_frame(&dequeued(1)).unwrap();
    assert!(c.stop().is_ok());
    assert_eq!(c.state(), SessionState::Stopped);
}

#[test]
fn stop_refused_unless_streaming() {
    let mut c = prepared_session(2);
    assert_eq!(c.stop(), Err(CaptureError::ControlError));
    let mut o = Capture::opened(test_format());
    assert_eq!(o.stop(), Err(CaptureError::ControlError));
}

#[test]
fn unprepare_releases_pool_and_reprepare_is_fresh() {
    let mut c = streaming_session(3);
    c.stop().unwrap();
    assert!(c.unprepare().is_ok());
    assert_eq!(c.state(), SessionState::Opened);
    assert_eq!(c.pool_len(), 0);
    // A subsequent prepare on the same opened session yields a fresh,
    // independent pool.
    let slots = vec![slot(111, 0), slot(111, 8192)];
    assert!(c.prepare_mmapped(2, 2, &slots).is_ok());
    assert_eq!(c.state(), SessionState::Prepared);
    assert_eq!(*c.pool(), vec![
        PoolSlot { length: 111, offset: 0 },
        PoolSlot { length: 111, offset: 8192 },
    ]);
    assert_eq!(c.kernel_owned().clone(), vec![false, false]);
}

#[test]
fn unprepare_is_idempotent_from_opened() {
    let mut c = Capture::opened(test_format());
    assert!(c.unprepare().is_ok());
    assert!(c.unprepare().is_ok());
    assert_eq!(c.state(), SessionState::Opened);
}

#[test]
fn unprepare_refused_while_streaming() {
    let mut c = streaming_session(2);
    assert_eq!(c.unprepare(), Err(CaptureError::ControlError));
    assert_eq!(c.state(), SessionState::Streaming);
}

#[test]
fn stopped_session_can_reprepare() {
    let mut c = streaming_session(2);
    c.stop().unwrap();
    let slots = vec![slot(7, 0)];
    assert!(c.prepare_mmapped(1, 1, &slots).is_ok());
    assert_eq!(c.pool_len(), 1);
}
