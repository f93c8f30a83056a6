//! Negotiation scenarios: exact matches, `Required` failures, tie breaking
//! and the bandwidth budget.

use rustcv::calculate_score;
use rustcv::check_bandwidth;
use rustcv::negotiate;
use rustcv::satisfies_required;
use rustcv::CameraConfig;
use rustcv::CameraError;
use rustcv::FourCC;
use rustcv::NegotiatedFormat;
use rustcv::PixelFormat;
use rustcv::Priority;

fn yuyv() -> PixelFormat {
    PixelFormat::Known(FourCC(FourCC::YUYV))
}

fn uyvy() -> PixelFormat {
    PixelFormat::Known(FourCC(FourCC::UYVY))
}

#[test]
fn picks_required_resolution_and_preferred_format() {
    let config = CameraConfig::new()
        .resolution(640, 480, Priority::Required)
        .format(yuyv(), Priority::High);
    let candidates = vec![(320, 240, yuyv()), (640, 480, uyvy()), (640, 480, yuyv())];
    let picked = negotiate(&config, &candidates).expect("negotiation must succeed");
    assert_eq!(picked.width, 640);
    assert_eq!(picked.height, 480);
    assert_eq!(picked.format, yuyv());
    let score = calculate_score(&config, 640, 480, yuyv());
    assert!(score >= 255 * 10 + 100 * 10);
}

#[test]
fn required_resolution_unsatisfied_fails() {
    let config = CameraConfig::new().resolution(1920, 1080, Priority::Required);
    let candidates = vec![(640, 480, yuyv())];
    let r = negotiate(&config, &candidates);
    assert!(matches!(r, Err(CameraError::FormatNotSupported)));
}

#[test]
fn empty_candidate_set_fails() {
    let config = CameraConfig::new();
    let candidates: Vec<(u32, u32, PixelFormat)> = vec![];
    let r = negotiate(&config, &candidates);
    assert!(matches!(r, Err(CameraError::FormatNotSupported)));
}

#[test]
fn first_of_equal_scores_wins() {
    let config = CameraConfig::new().format(yuyv(), Priority::Medium);
    // Same resolution and format twice: the earlier candidate must win.
    let candidates = vec![(640, 480, yuyv()), (640, 480, yuyv())];
    let picked = negotiate(&config, &candidates).expect("negotiation must succeed");
    assert_eq!((picked.width, picked.height), (640, 480));
    // A strictly better candidate later still wins.
    let candidates2 = vec![(640, 480, uyvy()), (640, 480, yuyv())];
    let picked2 = negotiate(&config, &candidates2).expect("negotiation must succeed");
    assert_eq!(picked2.format, yuyv());
}

#[test]
fn distance_penalty_prefers_nearest_resolution() {
    let config = CameraConfig::new().resolution(800, 600, Priority::Low);
    // Neither matches exactly; the closer one scores higher.
    let near = calculate_score(&config, 820, 600, yuyv());
    let far = calculate_score(&config, 320, 240, yuyv());
    assert!(near > far);
    // Exact spec value: -(|820-800| + |600-600|) + 820/100 = -20 + 8.
    assert_eq!(near, -20 + 8);
}

#[test]
fn low_priority_match_still_pays_distance() {
    // A matching wish at Low priority weighs 0, so the distance term (0 for
    // an exact match) still applies and only the tiebreaker remains.
    let config = CameraConfig::new().resolution(640, 480, Priority::Low);
    assert_eq!(calculate_score(&config, 640, 480, yuyv()), 6);
}

#[test]
fn no_resolution_wish_gives_fixed_penalty() {
    let config = CameraConfig::new();
    // Score is -1000 + w/100 with no wishes at all.
    assert_eq!(calculate_score(&config, 640, 480, yuyv()), -1000 + 6);
}

#[test]
fn required_format_filters_candidates() {
    let config = CameraConfig::new().format(yuyv(), Priority::Required);
    assert!(satisfies_required(&config, 640, 480, yuyv()));
    assert!(!satisfies_required(&config, 640, 480, uyvy()));
    let candidates = vec![(640, 480, uyvy())];
    assert!(matches!(
        negotiate(&config, &candidates),
        Err(CameraError::FormatNotSupported)
    ));
}

#[test]
fn fps_wish_carries_into_result() {
    let config = CameraConfig::new().fps(60, Priority::Medium);
    let candidates = vec![(640, 480, yuyv())];
    let picked = negotiate(&config, &candidates).expect("negotiation must succeed");
    assert_eq!(picked.fps, 60);
    let config2 = CameraConfig::new();
    let picked2 = negotiate(&config2, &candidates).expect("negotiation must succeed");
    assert_eq!(picked2.fps, 30);
}

#[test]
fn bandwidth_budget_is_enforced() {
    let fmt = NegotiatedFormat {
        width: 1920,
        height: 1080,
        format: yuyv(),
        fps: 30,
    };
    // 1920*1080*30*16 bits = 995_328_000 -> 995 Mbps.
    match check_bandwidth(&fmt, 400) {
        Err(CameraError::BandwidthExceeded {
            required_mbps,
            limit_mbps,
            suggestion,
        }) => {
            assert_eq!(required_mbps, 995);
            assert_eq!(limit_mbps, 400);
            assert_eq!(suggestion, "Try MJPEG format");
        }
        other => panic!("expected BandwidthExceeded, got {:?}", other.is_ok()),
    }
    assert!(check_bandwidth(&fmt, 995).is_ok());
}
