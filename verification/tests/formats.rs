//! Registry and pixel-map scenarios: code packing, classification, bandwidth
//! figures and the per-backend round trips.

use rustcv::from_mf_subtype;
use rustcv::from_v4l_fourcc;
use rustcv::to_mf_subtype;
use rustcv::to_v4l_fourcc;
use rustcv::CameraConfig;
use rustcv::FourCC;
use rustcv::PixelFormat;
use rustcv::Priority;

#[test]
fn fourcc_packs_ascii_little_endian() {
    assert_eq!(FourCC::new(b'Y', b'U', b'Y', b'V').0, FourCC::YUYV);
    assert_eq!(FourCC::new(b'M', b'J', b'P', b'G').0, FourCC::MJPEG);
    assert_eq!(FourCC::new(b'Z', b'1', b'6', b' ').0, FourCC::Z16);
    assert_eq!(FourCC::new(b'B', b'A', b'8', b'1').0, FourCC::BA81);
}

#[test]
fn classification_over_the_registry() {
    let known = |c: u32| PixelFormat::Known(FourCC(c));
    assert!(known(FourCC::MJPEG).is_compressed());
    assert!(known(FourCC::H264).is_compressed());
    assert!(!known(FourCC::YUYV).is_compressed());
    assert!(known(FourCC::BA81).is_bayer());
    assert!(known(FourCC::GBRG).is_bayer());
    assert!(known(FourCC::GRBG).is_bayer());
    assert!(known(FourCC::RGGB).is_bayer());
    assert!(!known(FourCC::BGR3).is_bayer());
    assert!(!PixelFormat::Unknown(FourCC::MJPEG).is_compressed());
}

#[test]
fn bandwidth_estimates_per_format() {
    let known = |c: u32| PixelFormat::Known(FourCC(c));
    assert_eq!(known(FourCC::YUYV).bpp_estimate(), 16);
    assert_eq!(known(FourCC::UYVY).bpp_estimate(), 16);
    assert_eq!(known(FourCC::Z16).bpp_estimate(), 16);
    assert_eq!(known(FourCC::BGR3).bpp_estimate(), 24);
    assert_eq!(known(FourCC::RGB3).bpp_estimate(), 24);
    assert_eq!(known(FourCC::RGBA).bpp_estimate(), 32);
    assert_eq!(known(FourCC::NV12).bpp_estimate(), 12);
    assert_eq!(known(FourCC::YV12).bpp_estimate(), 12);
    assert_eq!(known(FourCC::BA81).bpp_estimate(), 8);
    assert_eq!(known(FourCC::MJPEG).bpp_estimate(), 4);
    assert_eq!(known(FourCC::H264).bpp_estimate(), 4);
    assert_eq!(PixelFormat::Unknown(7).bpp_estimate(), 0);
    assert_eq!(known(0x3030_3030).bpp_estimate(), 0);
}

#[test]
fn v4l2_map_round_trips_every_registry_code() {
    let codes = [
        FourCC::YUYV,
        FourCC::UYVY,
        FourCC::NV12,
        FourCC::YV12,
        FourCC::BGR3,
        FourCC::RGB3,
        FourCC::RGBA,
        FourCC::MJPEG,
        FourCC::H264,
        FourCC::BA81,
        FourCC::GBRG,
        FourCC::GRBG,
        FourCC::RGGB,
        FourCC::Z16,
    ];
    for &code in codes.iter() {
        let fmt = PixelFormat::Known(FourCC(code));
        let native = to_v4l_fourcc(fmt).expect("registry codes map to V4L2");
        assert_eq!(from_v4l_fourcc(native), fmt);
    }
}

#[test]
fn v4l2_map_rejects_what_it_does_not_know() {
    assert_eq!(from_v4l_fourcc(0x1234_5678), PixelFormat::Unknown(0x1234_5678));
    assert_eq!(to_v4l_fourcc(PixelFormat::Unknown(77)), None);
    assert_eq!(to_v4l_fourcc(PixelFormat::Known(FourCC(0x3030_3030))), None);
}

#[test]
fn msmf_map_round_trips_its_formats() {
    let formats = [
        FourCC::YUYV,
        FourCC::UYVY,
        FourCC::NV12,
        FourCC::YV12,
        FourCC::RGB3,
        FourCC::RGBA,
        FourCC::MJPEG,
        FourCC::H264,
    ];
    for &code in formats.iter() {
        let fmt = PixelFormat::Known(FourCC(code));
        let native = to_mf_subtype(fmt).expect("these formats map to Media Foundation");
        assert_eq!(from_mf_subtype(native), fmt);
    }
    // The Windows name of the YUYV layout and the RGB legacy constants.
    assert_eq!(to_mf_subtype(PixelFormat::Known(FourCC(FourCC::YUYV))), Some(0x3259_5559));
    assert_eq!(to_mf_subtype(PixelFormat::Known(FourCC(FourCC::RGB3))), Some(20));
    assert_eq!(to_mf_subtype(PixelFormat::Known(FourCC(FourCC::RGBA))), Some(22));
    // Bayer has no Media Foundation mapping.
    assert_eq!(to_mf_subtype(PixelFormat::Known(FourCC(FourCC::RGGB))), None);
    assert_eq!(from_mf_subtype(0x1234_5678), PixelFormat::Unknown(0x1234_5678));
}

#[test]
fn priority_weights() {
    assert_eq!(Priority::Low.value(), 0);
    assert_eq!(Priority::Medium.value(), 50);
    assert_eq!(Priority::High.value(), 100);
    assert_eq!(Priority::Required.value(), 255);
}

#[test]
fn builder_accumulates_wishes() {
    let c = CameraConfig::new();
    assert!(c.resolution_req.is_empty());
    assert!(c.fps_req.is_none());
    assert!(c.format_req.is_empty());
    assert_eq!(c.buffer_count, 3);
    assert_eq!(c.align_stride, Some(256));

    let c = CameraConfig::new()
        .resolution(640, 480, Priority::High)
        .resolution(1920, 1080, Priority::Low)
        .fps(60, Priority::Medium)
        .format(PixelFormat::Known(FourCC(FourCC::YUYV)), Priority::Required)
        .buffer_count(5)
        .align_stride(512);
    assert_eq!(c.resolution_req, vec![
        (640, 480, Priority::High),
        (1920, 1080, Priority::Low)
    ]);
    assert_eq!(c.fps_req, Some((60, Priority::Medium)));
    assert_eq!(c.format_req.len(), 1);
    assert_eq!(c.buffer_count, 5);
    assert_eq!(c.align_stride, Some(512));
}
