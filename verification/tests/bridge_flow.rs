//! Bridge scenarios: the worker loop's decisions, including the hot-reload
//! path — read, reconfigure mid-stream, read again at the new geometry.

use rustcv::fourcc_code;
use rustcv::negotiate;
use rustcv::pack_frame_size;
use rustcv::parse_frame_size;
use rustcv::CameraConfig;
use rustcv::CaptureSession;
use rustcv::FourCC;
use rustcv::PixelFormat;
use rustcv::Response;
use rustcv::WorkerCore;

fn yuyv() -> PixelFormat {
    PixelFormat::Known(FourCC(FourCC::YUYV))
}

/// The advertised modes of the simulated device.
fn advertised() -> Vec<(u32, u32, PixelFormat)> {
    vec![(640, 480, yuyv()), (1280, 720, yuyv())]
}

/// Opens a started session for whatever the worker's stored request selects.
fn open_for(worker: &WorkerCore) -> CaptureSession {
    let picked = negotiate(worker.config(), &advertised()).expect("negotiation succeeds");
    let mut s = CaptureSession::new(picked, worker.config().buffer_count);
    s.start().expect("start succeeds");
    s
}

#[test]
fn hot_reload_switches_geometry_without_losing_the_worker() {
    let mut worker = WorkerCore::new(CameraConfig::new());
    let first = open_for(&worker);
    worker.adopt_session(first);
    assert!(worker.has_session());

    // Ten frames at the initial geometry (the negotiator favors the higher
    // resolution absent any wish, so this is 1280x720).
    for i in 0..10u64 {
        let payload = vec![0u8; 1280 * 720 * 2];
        match worker.on_frame(payload, 2560, 33_000_000 * i, 33_000_000 * i) {
            Response::FrameData { width, height, fourcc, .. } => {
                assert_eq!((width, height), (1280, 720));
                assert_eq!(fourcc, FourCC::YUYV);
            }
            _ => panic!("a running worker answers NextFrame with FrameData"),
        }
    }

    // SetResolution(640, 480): the session leaves the worker, the device is
    // released, and the stored request now demands exactly 640x480.
    let old = worker.begin_reconfigure(640, 480);
    assert!(old.is_some());
    assert!(!worker.has_session());
    let mut released = old.unwrap();
    released.stop().expect("stop on teardown succeeds");
    drop(released);

    // Reopen against the same advertised modes and finish the reload.
    let reopened = open_for(&worker);
    match worker.complete_reconfigure(reopened) {
        Response::PropertySet => {}
        _ => panic!("a successful reload answers PropertySet"),
    }

    // Ten more frames: the new geometry, sequence restarted.
    for i in 0..10u64 {
        let payload = vec![0u8; 640 * 480 * 2];
        match worker.on_frame(payload, 1280, 33_000_000 * i, 33_000_000 * i) {
            Response::FrameData { width, height, .. } => {
                assert_eq!((width, height), (640, 480));
            }
            _ => panic!("the reloaded worker answers NextFrame with FrameData"),
        }
    }
}

#[test]
fn next_frame_without_session_reports_not_opened() {
    let worker = WorkerCore::new(CameraConfig::new());
    match worker.missing_session_response() {
        Response::ErrorMsg(m) => assert_eq!(m, "Camera not opened"),
        _ => panic!("a sessionless worker answers ErrorMsg"),
    }
}

#[test]
fn failed_reload_leaves_worker_sessionless() {
    let mut worker = WorkerCore::new(CameraConfig::new());
    let s = open_for(&worker);
    worker.adopt_session(s);
    let _old = worker.begin_reconfigure(99_999, 99_999);
    // The reopen failed (no such mode); the worker stays empty and says why.
    match worker.fail_reconfigure("Failed to set resolution".to_owned()) {
        Response::ErrorMsg(m) => assert_eq!(m, "Failed to set resolution"),
        _ => panic!("a failed reload answers ErrorMsg"),
    }
    assert!(!worker.has_session());
}

#[test]
fn idle_session_frame_becomes_error_response() {
    let mut worker = WorkerCore::new(CameraConfig::new());
    let picked = negotiate(worker.config(), &advertised()).expect("negotiation succeeds");
    // Adopted but never started: delivery must answer with an error.
    worker.adopt_session(CaptureSession::new(picked, 3));
    match worker.on_frame(vec![0u8; 16], 0, 0, 0) {
        Response::ErrorMsg(_) => {}
        _ => panic!("an idle session's delivery answers ErrorMsg"),
    }
    assert!(worker.has_session());
}

#[test]
fn stop_releases_the_session() {
    let mut worker = WorkerCore::new(CameraConfig::new());
    let s = open_for(&worker);
    worker.adopt_session(s);
    let taken = worker.on_stop();
    assert!(taken.is_some());
    assert!(!worker.has_session());
}

#[test]
fn fourcc_code_extraction() {
    assert_eq!(fourcc_code(PixelFormat::Known(FourCC(FourCC::MJPEG))), FourCC::MJPEG);
    assert_eq!(fourcc_code(PixelFormat::Unknown(0xDEAD_BEEF)), 0xDEAD_BEEF);
}

#[test]
fn frame_size_word_round_trips() {
    let word = pack_frame_size(1920, 1080);
    assert_eq!(word, (1920u64 << 32) | 1080);
    assert_eq!(parse_frame_size(word), (1920, 1080));
}
