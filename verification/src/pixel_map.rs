//! The per-backend pixel maps: bidirectional translation between the
//! registry's canonical codes and each OS subsystem's native identifiers.
//!
//! V4L2 names formats by raw four-character codes, so its native identifier
//! is the code itself and the map decides membership in the registry. Media
//! Foundation names video formats by GUIDs that all share one base; the
//! native identifier here is the GUID's leading 32-bit word, which is either
//! a four-character code (YUY2, MJPG, ...) or a small legacy constant (RGB24,
//! RGB32).

use vstd::prelude::*;

use crate::fourcc::FourCC;
use crate::fourcc::PixelFormat;

verus! {

/// The leading word of the Media Foundation GUID for YUY2 (the registry's
/// YUYV layout under its Windows name).
pub const MF_YUY2: u32 = 0x3259_5559;

/// The leading word of the Media Foundation GUID for RGB24 (a legacy
/// constant, not a four-character code).
pub const MF_RGB24: u32 = 20;

/// The leading word of the Media Foundation GUID for RGB32.
pub const MF_RGB32: u32 = 22;

/// Whether a raw V4L2 four-character code is in the registry.
pub open spec fn v4l2_code_known(code: u32) -> bool {
    ||| code == FourCC::YUYV
    ||| code == FourCC::UYVY
    ||| code == FourCC::NV12
    ||| code == FourCC::YV12
    ||| code == FourCC::BGR3
    ||| code == FourCC::RGB3
    ||| code == FourCC::RGBA
    ||| code == FourCC::MJPEG
    ||| code == FourCC::H264
    ||| code == FourCC::BA81
    ||| code == FourCC::GBRG
    ||| code == FourCC::GRBG
    ||| code == FourCC::RGGB
    ||| code == FourCC::Z16
}

/// What the V4L2 map answers for a native code.
pub open spec fn spec_from_v4l_fourcc(code: u32) -> PixelFormat {
    if v4l2_code_known(code) {
        PixelFormat::Known(FourCC(code))
    } else {
        PixelFormat::Unknown(code)
    }
}

/// What the V4L2 map answers for a registry format: defined exactly on the
/// registry's own codes.
pub open spec fn spec_to_v4l_fourcc(fmt: PixelFormat) -> Option<u32> {
    match fmt {
        PixelFormat::Known(cc) => if v4l2_code_known(cc.0) {
            Some(cc.0)
        } else {
            None
        },
        PixelFormat::Unknown(_) => None,
    }
}

/// Classifies a raw V4L2 code: a registry format, or `Unknown` carrying the
/// raw value so the data plane can still deliver bytes.
pub fn from_v4l_fourcc(code: u32) -> (r: PixelFormat)
    ensures
        r == spec_from_v4l_fourcc(code),
{
    if code == FourCC::YUYV || code == FourCC::UYVY || code == FourCC::NV12 || code == FourCC::YV12
        || code == FourCC::BGR3 || code == FourCC::RGB3 || code == FourCC::RGBA || code
        == FourCC::MJPEG || code == FourCC::H264 || code == FourCC::BA81 || code == FourCC::GBRG
        || code == FourCC::GRBG || code == FourCC::RGGB || code == FourCC::Z16 {
        PixelFormat::Known(FourCC(code))
    } else {
        PixelFormat::Unknown(code)
    }
}

/// The native V4L2 code to request for a format, where one exists.
pub fn to_v4l_fourcc(fmt: PixelFormat) -> (r: Option<u32>)
    ensures
        r == spec_to_v4l_fourcc(fmt),
{
    match fmt {
        PixelFormat::Known(cc) => {
            let code = cc.0;
            if code == FourCC::YUYV || code == FourCC::UYVY || code == FourCC::NV12 || code
                == FourCC::YV12 || code == FourCC::BGR3 || code == FourCC::RGB3 || code
                == FourCC::RGBA || code == FourCC::MJPEG || code == FourCC::H264 || code
                == FourCC::BA81 || code == FourCC::GBRG || code == FourCC::GRBG || code
                == FourCC::RGGB || code == FourCC::Z16 {
                Some(code)
            } else {
                None
            }
        },
        PixelFormat::Unknown(_) => None,
    }
}

/// What the Media Foundation map answers for a native identifier.
pub open spec fn spec_from_mf_subtype(code: u32) -> PixelFormat {
    if code == MF_YUY2 {
        PixelFormat::Known(FourCC(FourCC::YUYV))
    } else if code == FourCC::UYVY {
        PixelFormat::Known(FourCC(FourCC::UYVY))
    } else if code == FourCC::NV12 {
        PixelFormat::Known(FourCC(FourCC::NV12))
    } else if code == FourCC::YV12 {
        PixelFormat::Known(FourCC(FourCC::YV12))
    } else if code == MF_RGB24 {
        PixelFormat::Known(FourCC(FourCC::RGB3))
    } else if code == MF_RGB32 {
        PixelFormat::Known(FourCC(FourCC::RGBA))
    } else if code == FourCC::MJPEG {
        PixelFormat::Known(FourCC(FourCC::MJPEG))
    } else if code == FourCC::H264 {
        PixelFormat::Known(FourCC(FourCC::H264))
    } else {
        PixelFormat::Unknown(code)
    }
}

/// What the Media Foundation map answers for a registry format.
pub open spec fn spec_to_mf_subtype(fmt: PixelFormat) -> Option<u32> {
    match fmt {
        PixelFormat::Known(cc) => if cc.0 == FourCC::YUYV {
            Some(MF_YUY2)
        } else if cc.0 == FourCC::UYVY {
            Some(FourCC::UYVY)
        } else if cc.0 == FourCC::NV12 {
            Some(FourCC::NV12)
        } else if cc.0 == FourCC::YV12 {
            Some(FourCC::YV12)
        } else if cc.0 == FourCC::RGB3 {
            Some(MF_RGB24)
        } else if cc.0 == FourCC::RGBA {
            Some(MF_RGB32)
        } else if cc.0 == FourCC::MJPEG {
            Some(FourCC::MJPEG)
        } else if cc.0 == FourCC::H264 {
            Some(FourCC::H264)
        } else {
            None
        },
        PixelFormat::Unknown(_) => None,
    }
}

/// Classifies the leading word of a Media Foundation subtype GUID.
pub fn from_mf_subtype(code: u32) -> (r: PixelFormat)
    ensures
        r == spec_from_mf_subtype(code),
{
    if code == MF_YUY2 {
        PixelFormat::Known(FourCC(FourCC::YUYV))
    } else if code == FourCC::UYVY {
        PixelFormat::Known(FourCC(FourCC::UYVY))
    } else if code == FourCC::NV12 {
        PixelFormat::Known(FourCC(FourCC::NV12))
    } else if code == FourCC::YV12 {
        PixelFormat::Known(FourCC(FourCC::YV12))
    } else if code == MF_RGB24 {
        PixelFormat::Known(FourCC(FourCC::RGB3))
    } else if code == MF_RGB32 {
        PixelFormat::Known(FourCC(FourCC::RGBA))
    } else if code == FourCC::MJPEG {
        PixelFormat::Known(FourCC(FourCC::MJPEG))
    } else if code == FourCC::H264 {
        PixelFormat::Known(FourCC(FourCC::H264))
    } else {
        PixelFormat::Unknown(code)
    }
}

/// The leading word of the Media Foundation subtype GUID to request for a
/// format, where one exists.
pub fn to_mf_subtype(fmt: PixelFormat) -> (r: Option<u32>)
    ensures
        r == spec_to_mf_subtype(fmt),
{
    match fmt {
        PixelFormat::Known(cc) => {
            let code = cc.0;
            if code == FourCC::YUYV {
                Some(MF_YUY2)
            } else if code == FourCC::UYVY {
                Some(FourCC::UYVY)
            } else if code == FourCC::NV12 {
                Some(FourCC::NV12)
            } else if code == FourCC::YV12 {
                Some(FourCC::YV12)
            } else if code == FourCC::RGB3 {
                Some(MF_RGB24)
            } else if code == FourCC::RGBA {
                Some(MF_RGB32)
            } else if code == FourCC::MJPEG {
                Some(FourCC::MJPEG)
            } else if code == FourCC::H264 {
                Some(FourCC::H264)
            } else {
                None
            }
        },
        PixelFormat::Unknown(_) => None,
    }
}

/// Law: the V4L2 map closes its round trip. Whenever `to` is defined for a
/// format, mapping the native code back yields the same known format.
pub proof fn lemma_v4l2_round_trip(fmt: PixelFormat)
    requires
        spec_to_v4l_fourcc(fmt) is Some,
    ensures
        spec_from_v4l_fourcc(spec_to_v4l_fourcc(fmt).unwrap()) == fmt,
{
}

/// Law: the Media Foundation map closes its round trip. Whenever `to` is
/// defined for a format, mapping the native identifier back yields the same
/// known format.
pub proof fn lemma_msmf_round_trip(fmt: PixelFormat)
    requires
        spec_to_mf_subtype(fmt) is Some,
    ensures
        spec_from_mf_subtype(spec_to_mf_subtype(fmt).unwrap()) == fmt,
{
}

} // verus!
