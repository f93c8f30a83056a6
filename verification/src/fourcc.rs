//! The pixel-format registry: a canonical four-character code space and the
//! classification / bandwidth helpers over it.

use vstd::prelude::*;

verus! {

/// A four-character code: four ASCII bytes packed into a `u32`, little-endian
/// (the first character is the lowest byte). Equality is bitwise.
#[derive(Clone, Copy, Debug, PartialEq, Eq, Hash, PartialOrd, Ord, Structural)]
pub struct FourCC(pub u32);

impl FourCC {
    /// "YUYV": YUYV 4:2:2, the most common uncompressed webcam format.
    pub const YUYV: u32 = 0x5659_5559;

    /// "UYVY": UYVY 4:2:2.
    pub const UYVY: u32 = 0x5956_5955;

    /// "NV12": NV12 4:2:0, semi-planar.
    pub const NV12: u32 = 0x3231_564E;

    /// "YV12": YV12 4:2:0, planar.
    pub const YV12: u32 = 0x3231_5659;

    /// "BGR3": 24-bit RGB stored B-G-R.
    pub const BGR3: u32 = 0x3352_4742;

    /// "RGB3": 24-bit RGB stored R-G-B.
    pub const RGB3: u32 = 0x3342_4752;

    /// "RGBA": 32-bit RGBA.
    pub const RGBA: u32 = 0x4142_4752;

    /// "MJPG": Motion-JPEG, compressed.
    pub const MJPEG: u32 = 0x4750_4A4D;

    /// "H264": H.264, compressed.
    pub const H264: u32 = 0x3436_3248;

    /// "BA81": raw Bayer BGGR, 8-bit.
    pub const BA81: u32 = 0x3138_4142;

    /// "GBRG": raw Bayer GBRG, 8-bit.
    pub const GBRG: u32 = 0x4752_4247;

    /// "GRBG": raw Bayer GRBG, 8-bit.
    pub const GRBG: u32 = 0x4742_5247;

    /// "RGGB": raw Bayer RGGB, 8-bit.
    pub const RGGB: u32 = 0x4247_4752;

    /// "Z16 ": 16-bit depth.
    pub const Z16: u32 = 0x2036_315A;

    /// Packs four ASCII bytes into a code, first byte lowest.
    pub fn new(a: u8, b: u8, c: u8, d: u8) -> (r: Self)
        ensures
            r.0 == a + b * 0x100 + c * 0x1_0000 + d * 0x100_0000,
    {
        FourCC(
            (a as u32) + (b as u32) * 0x100 + (c as u32) * 0x1_0000 + (d as u32) * 0x100_0000,
        )
    }
}

/// A pixel format as the data plane carries it: either one of the registry's
/// known codes, or a raw driver-private identifier that still travels through
/// so a caller can receive the bytes.
#[derive(Clone, Copy, Debug, PartialEq, Eq, Structural)]
pub enum PixelFormat {
    /// A code the registry knows.
    Known(FourCC),
    /// A code the registry does not know; carries the raw native value.
    Unknown(u32),
}

impl PixelFormat {
    /// Whether the format is a compressed bitstream (MJPEG or H.264).
    pub open spec fn spec_is_compressed(self) -> bool {
        match self {
            PixelFormat::Known(cc) => cc.0 == FourCC::MJPEG || cc.0 == FourCC::H264,
            PixelFormat::Unknown(_) => false,
        }
    }

    /// Whether the format is raw Bayer mosaic data (needs demosaicing).
    pub open spec fn spec_is_bayer(self) -> bool {
        match self {
            PixelFormat::Known(cc) => cc.0 == FourCC::BA81 || cc.0 == FourCC::GBRG || cc.0
                == FourCC::GRBG || cc.0 == FourCC::RGGB,
            PixelFormat::Unknown(_) => false,
        }
    }

    /// Bits per pixel used for bandwidth estimates; 0 for codes outside the
    /// registry, a rough typical value for compressed formats.
    pub open spec fn spec_bpp_estimate(self) -> u32 {
        match self {
            PixelFormat::Known(cc) => if cc.0 == FourCC::YUYV || cc.0 == FourCC::UYVY || cc.0
                == FourCC::Z16 {
                16
            } else if cc.0 == FourCC::BGR3 || cc.0 == FourCC::RGB3 {
                24
            } else if cc.0 == FourCC::RGBA {
                32
            } else if cc.0 == FourCC::NV12 || cc.0 == FourCC::YV12 {
                12
            } else if cc.0 == FourCC::BA81 || cc.0 == FourCC::GBRG || cc.0 == FourCC::GRBG
                || cc.0 == FourCC::RGGB {
                8
            } else if cc.0 == FourCC::MJPEG || cc.0 == FourCC::H264 {
                4
            } else {
                0
            },
            PixelFormat::Unknown(_) => 0,
        }
    }

    /// Classifies compressed bitstream formats.
    pub fn is_compressed(&self) -> (r: bool)
        ensures
            r == self.spec_is_compressed(),
    {
        match self {
            PixelFormat::Known(cc) => cc.0 == FourCC::MJPEG || cc.0 == FourCC::H264,
            PixelFormat::Unknown(_) => false,
        }
    }

    /// Classifies raw Bayer mosaic formats.
    pub fn is_bayer(&self) -> (r: bool)
        ensures
            r == self.spec_is_bayer(),
    {
        match self {
            PixelFormat::Known(cc) => cc.0 == FourCC::BA81 || cc.0 == FourCC::GBRG || cc.0
                == FourCC::GRBG || cc.0 == FourCC::RGGB,
            PixelFormat::Unknown(_) => false,
        }
    }

    /// Estimated bits per pixel, for bandwidth accounting.
    pub fn bpp_estimate(&self) -> (r: u32)
        ensures
            r == self.spec_bpp_estimate(),
    {
        match self {
            PixelFormat::Known(cc) => {
                if cc.0 == FourCC::YUYV || cc.0 == FourCC::UYVY || cc.0 == FourCC::Z16 {
                    16
                } else if cc.0 == FourCC::BGR3 || cc.0 == FourCC::RGB3 {
                    24
                } else if cc.0 == FourCC::RGBA {
                    32
                } else if cc.0 == FourCC::NV12 || cc.0 == FourCC::YV12 {
                    12
                } else if cc.0 == FourCC::BA81 || cc.0 == FourCC::GBRG || cc.0 == FourCC::GRBG
                    || cc.0 == FourCC::RGGB {
                    8
                } else if cc.0 == FourCC::MJPEG || cc.0 == FourCC::H264 {
                    4
                } else {
                    0
                }
            },
            PixelFormat::Unknown(_) => 0,
        }
    }
}

} // verus!
