//! Capture-session scenarios: the state machine, frame validation, sequence
//! numbering and timestamp correction over a run of frames.

use rustcv::classify_os_error;
use rustcv::CameraError;
use rustcv::CaptureSession;
use rustcv::FourCC;
use rustcv::NegotiatedFormat;
use rustcv::PixelFormat;
use rustcv::StreamState;
use rustcv::SubsystemRefCount;

fn yuyv_640() -> NegotiatedFormat {
    NegotiatedFormat {
        width: 640,
        height: 480,
        format: PixelFormat::Known(FourCC(FourCC::YUYV)),
        fps: 30,
    }
}

fn yuyv_payload() -> Vec<u8> {
    vec![0u8; 640 * 480 * 2]
}

#[test]
fn next_frame_in_idle_fails_and_state_holds() {
    let mut s = CaptureSession::new(yuyv_640(), 3);
    assert_eq!(s.state(), StreamState::Idle);
    let r = s.accept_buffer(yuyv_payload(), 1280, 0, 0);
    match r {
        Err(CameraError::Io(msg)) => assert_eq!(msg, "Stream not started"),
        _ => panic!("an idle session must refuse buffers with Io"),
    }
    assert_eq!(s.state(), StreamState::Idle);
}

#[test]
fn thirty_frames_sequence_and_sync_monotonic() {
    let mut s = CaptureSession::new(yuyv_640(), 3);
    s.start().expect("start succeeds");
    assert_eq!(s.state(), StreamState::Running);
    let mut last_seq: u64 = 0;
    let mut last_sync: u64 = 0;
    for i in 0..30u64 {
        let hw = 33_000_000 * i;
        let arrival = 33_100_000 * i;
        let frame = s
            .accept_buffer(yuyv_payload(), 1280, hw, arrival)
            .expect("a running session accepts well-sized buffers");
        assert!(frame.sequence > last_seq || i == 0 && frame.sequence == 1);
        assert!(frame.sequence == i + 1);
        assert!(frame.timestamp.system_synced_ns >= last_sync);
        assert_eq!(frame.timestamp.hw_raw_ns, hw);
        assert_eq!(frame.width, 640);
        assert_eq!(frame.height, 480);
        assert_eq!(frame.stride, 1280);
        assert!(frame.data.len() >= frame.stride * frame.height as usize);
        last_seq = frame.sequence;
        last_sync = frame.timestamp.system_synced_ns;
    }
}

#[test]
fn short_buffer_is_rejected_without_advancing() {
    let mut s = CaptureSession::new(yuyv_640(), 3);
    s.start().expect("start succeeds");
    let r = s.accept_buffer(vec![0u8; 100], 1280, 0, 0);
    assert!(matches!(r, Err(CameraError::Io(_))));
    // The failed delivery neither advanced the sequence nor broke the session.
    let frame = s
        .accept_buffer(yuyv_payload(), 1280, 1_000, 1_000)
        .expect("a well-sized buffer still goes through");
    assert_eq!(frame.sequence, 1);
}

#[test]
fn compressed_payload_skips_geometry_check() {
    let fmt = NegotiatedFormat {
        width: 640,
        height: 480,
        format: PixelFormat::Known(FourCC(FourCC::MJPEG)),
        fps: 30,
    };
    let mut s = CaptureSession::new(fmt, 3);
    s.start().expect("start succeeds");
    // A compressed frame is whatever length the driver reports; stride 0.
    let frame = s
        .accept_buffer(vec![1, 2, 3, 4], 0, 5, 5)
        .expect("compressed payloads pass through");
    assert_eq!(frame.stride, 0);
    assert_eq!(frame.data, vec![1, 2, 3, 4]);
}

#[test]
fn start_and_stop_are_idempotent() {
    let mut s = CaptureSession::new(yuyv_640(), 3);
    s.start().expect("start succeeds");
    s.start().expect("second start is a no-op");
    assert_eq!(s.state(), StreamState::Running);
    s.stop().expect("stop succeeds");
    s.stop().expect("second stop is a no-op");
    assert_eq!(s.state(), StreamState::Idle);
}

#[test]
fn inject_frame_reports_simulation_error() {
    let mut s = CaptureSession::new(yuyv_640(), 3);
    s.start().expect("start succeeds");
    let frame = s
        .accept_buffer(yuyv_payload(), 1280, 0, 0)
        .expect("frame for injection");
    let r = s.inject_frame(frame);
    assert!(matches!(r, Err(CameraError::SimulationError(_))));
}

#[test]
fn error_messages_carry_their_text() {
    assert_eq!(
        CameraError::Disconnected("cam0".to_owned()).into_message(),
        "cam0"
    );
    assert_eq!(CameraError::Io("read failed".to_owned()).into_message(), "read failed");
    assert_eq!(
        CameraError::BandwidthExceeded {
            required_mbps: 995,
            limit_mbps: 400,
            suggestion: "Try MJPEG format".to_owned(),
        }
        .into_message(),
        "Try MJPEG format"
    );
    assert_eq!(
        CameraError::DeviceBusy.into_message(),
        "Device busy: exclusive access required"
    );
    assert_eq!(
        CameraError::BufferOverflow.into_message(),
        "Frame dropped: ring buffer overflow"
    );
}

#[test]
fn os_error_classification() {
    assert!(matches!(classify_os_error(16, "/dev/video0"), CameraError::DeviceBusy));
    match classify_os_error(19, "/dev/video0") {
        CameraError::Disconnected(d) => assert_eq!(d, "/dev/video0"),
        _ => panic!("ENODEV must classify as Disconnected"),
    }
    assert!(matches!(classify_os_error(13, "/dev/video0"), CameraError::Io(_)));
}

#[test]
fn subsystem_initializes_first_and_tears_down_last() {
    let mut mf = SubsystemRefCount::new();
    assert_eq!(mf.holders(), 0);
    assert!(mf.acquire(), "the first holder initializes");
    assert!(!mf.acquire(), "the second holder only counts");
    assert_eq!(mf.holders(), 2);
    assert!(!mf.release(), "the first release keeps the subsystem up");
    assert!(mf.release(), "the last release tears it down");
    assert_eq!(mf.holders(), 0);
    assert!(mf.acquire(), "a fresh holder initializes again");
}
