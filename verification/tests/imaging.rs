//! Imaging scenarios: the matrix container, the pixel conversions, drawing,
//! the MJPEG decode path, telemetry and the stopwatch.

use rustcv::clamp;
use rustcv::default_backend;
use rustcv::mat_to_u32_buffer;
use rustcv::rectangle;
use rustcv::swap_rb_channels;
use rustcv::update_mat_from_frame;
use rustcv::yuyv_to_bgr;
use rustcv::BackendType;
use rustcv::CameraError;
use rustcv::DeviceHealthStatus;
use rustcv::DeviceTelemetry;
use rustcv::FourCC;
use rustcv::HealthIssue;
use rustcv::Mat;
use rustcv::Point;
use rustcv::Rect;
use rustcv::Scalar;
use rustcv::TickMeter;

#[test]
fn mat_layout_and_rows() {
    let m = Mat::new(2, 3, 3);
    assert_eq!(m.data.len(), 18);
    assert_eq!(m.step, 9);
    assert!(!m.is_empty());
    assert_eq!(m.row_bytes(1).len(), 9);
    let e = Mat::empty();
    assert!(e.is_empty());
    assert_eq!(e.data.len(), 0);
}

#[test]
fn row_bytes_skips_stride_padding() {
    let mut m = Mat::new(2, 3, 3);
    m.step = 12;
    m.data = (0u8..24).collect();
    let row = m.row_bytes(1);
    assert_eq!(row, &[12, 13, 14, 15, 16, 17, 18, 19, 20]);
}

#[test]
fn clamp_saturates_both_ends() {
    assert_eq!(clamp(-5), 0);
    assert_eq!(clamp(0), 0);
    assert_eq!(clamp(100), 100);
    assert_eq!(clamp(255), 255);
    assert_eq!(clamp(300), 255);
}

#[test]
fn yuyv_converts_known_samples() {
    // Black (y=16) and mid-gray (y=128) at neutral chroma.
    let mut dest = vec![9u8; 12];
    let src = vec![16u8, 128, 16, 128, 128, 128, 128, 128];
    yuyv_to_bgr(&src, &mut dest, 4, 1);
    // First pair: both pixels black.
    assert_eq!(&dest[0..6], &[0, 0, 0, 0, 0, 0]);
    // Second pair: (298*112 + 128) >> 8 = 130 on every channel.
    assert_eq!(&dest[6..12], &[130, 130, 130, 130, 130, 130]);
}

#[test]
fn yuyv_saturates_bright_samples() {
    let mut dest = vec![0u8; 6];
    let src = vec![255u8, 128, 255, 128];
    yuyv_to_bgr(&src, &mut dest, 2, 1);
    assert_eq!(dest, vec![255, 255, 255, 255, 255, 255]);
}

#[test]
fn yuyv_leaves_dest_on_short_source() {
    let mut dest = vec![7u8; 12];
    let src = vec![0u8; 4];
    yuyv_to_bgr(&src, &mut dest, 4, 1);
    assert_eq!(dest, vec![7u8; 12]);
}

#[test]
fn channel_swap_is_an_involution() {
    let rgb = vec![1u8, 2, 3, 4, 5, 6];
    let bgr = swap_rb_channels(&rgb);
    assert_eq!(bgr, vec![3, 2, 1, 6, 5, 4]);
    assert_eq!(swap_rb_channels(&bgr), rgb);
}

#[test]
fn packs_bgr_matrix_into_argb_words() {
    let mut m = Mat::new(1, 2, 3);
    m.data = vec![1, 2, 3, 4, 5, 6];
    let buf = mat_to_u32_buffer(&m).expect("3-channel packs");
    assert_eq!(buf, vec![0x0003_0201, 0x0006_0504]);
    let gray = Mat::new(1, 2, 1);
    assert!(matches!(mat_to_u32_buffer(&gray), Err(CameraError::Io(_))));
}

#[test]
fn rectangle_paints_the_outline_and_nothing_else() {
    let mut m = Mat::new(4, 4, 3);
    rectangle(&mut m, Rect::new(1, 1, 2, 2), Scalar::new(10, 20, 30), 1);
    // The 2x2 clamped rectangle is all border at thickness 1.
    for (r, c) in [(1, 1), (1, 2), (2, 1), (2, 2)] {
        let i = r * 12 + c * 3;
        assert_eq!(&m.data[i..i + 3], &[10, 20, 30], "pixel ({r},{c})");
    }
    // Everything outside stays black.
    for (r, c) in [(0, 0), (0, 2), (3, 3), (2, 0), (1, 3)] {
        let i = r * 12 + c * 3;
        assert_eq!(&m.data[i..i + 3], &[0, 0, 0], "pixel ({r},{c})");
    }
}

#[test]
fn rectangle_with_zero_thickness_draws_nothing() {
    let mut m = Mat::new(4, 4, 3);
    rectangle(&mut m, Rect::new(0, 0, 4, 4), Scalar::all(200), 0);
    assert!(m.data.iter().all(|&b| b == 0));
}

#[test]
fn rectangle_clamps_to_the_image() {
    let mut m = Mat::new(3, 3, 3);
    rectangle(&mut m, Rect::new(-10, -10, 100, 100), Scalar::all(1), 50);
    // Fully covered: every pixel is on the (thick) border of the clamped box.
    assert!(m.data.iter().all(|&b| b == 1));
}

#[test]
fn update_mat_with_yuyv_payload() {
    let mut m = Mat::empty();
    let src = vec![16u8, 128, 16, 128];
    update_mat_from_frame(&mut m, 2, 1, src, FourCC::YUYV).expect("conversion succeeds");
    assert_eq!((m.rows, m.cols, m.step, m.channels), (1, 2, 6, 3));
    assert_eq!(m.data, vec![0u8; 6]);
}

#[test]
fn update_mat_copies_packed_payload() {
    let mut m = Mat::empty();
    let src = vec![1u8, 2, 3, 4, 5, 6];
    update_mat_from_frame(&mut m, 2, 1, src.clone(), FourCC::BGR3).expect("copy succeeds");
    assert_eq!(m.data, src);
}

#[test]
fn update_mat_decodes_mjpeg_and_swaps_to_bgr() {
    // Encode a uniform 8x8 RGB image as JPEG with an outside encoder, then
    // run it through the library's MJPEG path.
    let img = image::RgbImage::from_pixel(8, 8, image::Rgb([200u8, 100, 50]));
    let mut jpeg: Vec<u8> = Vec::new();
    let mut cursor = std::io::Cursor::new(&mut jpeg);
    img.write_to(&mut cursor, image::ImageFormat::Jpeg)
        .expect("encoding succeeds");

    let mut m = Mat::empty();
    update_mat_from_frame(&mut m, 8, 8, jpeg, FourCC::MJPEG).expect("decode succeeds");
    assert_eq!((m.rows, m.cols, m.channels), (8, 8, 3));
    // BGR order: blue (about 50) first, red (about 200) last; a decoder that
    // handed the compressed bytes back unchanged could not produce this.
    let b = m.data[0] as i32;
    let g = m.data[1] as i32;
    let r = m.data[2] as i32;
    assert!((b - 50).abs() <= 16, "blue was {b}");
    assert!((g - 100).abs() <= 16, "green was {g}");
    assert!((r - 200).abs() <= 16, "red was {r}");
}

#[test]
fn update_mat_rejects_garbage_mjpeg() {
    let mut m = Mat::empty();
    let r = update_mat_from_frame(&mut m, 8, 8, vec![0u8; 64], FourCC::MJPEG);
    assert!(matches!(r, Err(CameraError::Io(_))));
}

#[test]
fn telemetry_health_thresholds() {
    let mut t = DeviceTelemetry::default();
    assert_eq!(t.assess_health(), DeviceHealthStatus::Healthy);
    t.temperature_mc = Some(76_000);
    assert_eq!(
        t.assess_health(),
        DeviceHealthStatus::Warning(HealthIssue::Overheating)
    );
    t.temperature_mc = Some(86_000);
    assert_eq!(
        t.assess_health(),
        DeviceHealthStatus::Critical(HealthIssue::Overheating)
    );
    t.temperature_mc = Some(40_000);
    t.transmission_errors = 101;
    assert_eq!(
        t.assess_health(),
        DeviceHealthStatus::Warning(HealthIssue::HighPacketLoss)
    );
}

#[test]
fn tick_meter_counts_and_accumulates() {
    let mut tm = TickMeter::new();
    assert_eq!(tm.get_counter(), 0);
    tm.start(1_000);
    tm.start(5_000); // already running: ignored
    tm.stop(3_500);
    assert_eq!(tm.get_counter(), 1);
    assert_eq!(tm.get_total_ns(), 2_500);
    tm.stop(9_000); // already stopped: ignored
    assert_eq!(tm.get_counter(), 1);
    tm.start(10_000);
    tm.stop(10_100);
    assert_eq!(tm.get_total_ns(), 2_600);
    assert_eq!(tm.get_counter(), 2);
    tm.reset();
    assert_eq!(tm.get_counter(), 0);
    assert_eq!(tm.get_total_ns(), 0);
}

#[test]
fn geometry_constructors() {
    let p = Point::new(3, 4);
    assert_eq!((p.x, p.y), (3, 4));
    let r = Rect::new(1, 2, 30, 40);
    assert_eq!((r.x, r.y, r.width, r.height), (1, 2, 30, 40));
    let s = Scalar::all(7);
    assert_eq!((s.v0, s.v1, s.v2), (7, 7, 7));
}

#[test]
fn default_backend_is_v4l2() {
    assert_eq!(default_backend(), BackendType::V4L2);
}
