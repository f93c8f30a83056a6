//! The compressed-frame path of the facade's `read`: decoding an MJPEG
//! payload and materializing the BGR matrix a caller expects.
//!
//! The JPEG entropy decoding itself is an outside collaborator; what it
//! returns is named, and everything downstream of the name — the channel
//! reorder and the matrix assembly — is verified.

use vstd::prelude::*;

use crate::convert::bgr_of_rgb_ok;
use crate::convert::swap_rb_channels;
use crate::convert::yuyv_pair_ok;
use crate::convert::yuyv_to_bgr;
use crate::error::CameraError;
use crate::fourcc::FourCC;
use crate::mat::Mat;

verus! {

/// The RGB image a conforming JPEG decoder produces from a byte stream:
/// `None` for a stream that does not decode, otherwise width, height and the
/// packed 8-bit RGB pixels. The decode is a function of the bytes alone.
pub uninterp spec fn jpeg_rgb_of(bytes: Seq<u8>) -> Option<(u32, u32, Seq<u8>)>;

/// Relies on image::load_from_memory_with_format with the JPEG format and
/// DynamicImage::to_rgb8 / ImageBuffer::into_raw: the decoded RGB8 buffer
/// holds exactly width · height packed 3-byte pixels.
#[verifier::external_body]
fn decode_jpeg_rgb(data: &Vec<u8>) -> (r: Option<(u32, u32, Vec<u8>)>)
    ensures
        r is Some <==> jpeg_rgb_of(data@) is Some,
        r matches Some(t) ==> {
            let d = jpeg_rgb_of(data@).unwrap();
            &&& t.0 == d.0
            &&& t.1 == d.1
            &&& t.2@ == d.2
            &&& t.2@.len() == 3 * t.0 * t.1
        },
{
    match image::load_from_memory_with_format(data, image::ImageFormat::Jpeg) {
        Ok(img) => {
            let rgb = img.to_rgb8();
            let w = rgb.width();
            let h = rgb.height();
            Some((w, h, rgb.into_raw()))
        },
        Err(_) => None,
    }
}

/// 3·(3·n)/3 gives back 3·n.
proof fn lemma_triple_div(n: int)
    by (nonlinear_arith)
    requires
        0 <= n,
    ensures
        3 * ((3 * n) / 3) == 3 * n,
        (3 * n) / 3 == n,
{
}

/// Assembles the BGR matrix of a decoded RGB image: a packed 3-channel
/// matrix of the decoded geometry whose every pixel is the red/blue swap of
/// the corresponding decoded pixel. This is the verified remainder of the
/// MJPEG path, taking the decoder's output as its argument.
pub fn bgr_mat_from_rgb(width: u32, height: u32, rgb: Vec<u8>) -> (r: Result<Mat, CameraError>)
    requires
        rgb@.len() == 3 * width * height,
    ensures
        r is Ok <==> (3 * width <= i32::MAX && width * height * 3 <= usize::MAX && width
            <= i32::MAX && height <= i32::MAX),
        r matches Ok(m) ==> {
            &&& m.wf()
            &&& m.rows == height
            &&& m.cols == width
            &&& m.channels == 3
            &&& m.step == 3 * width
            &&& m.data@.len() == rgb@.len()
            &&& forall|p: int|
                0 <= p < width * height ==> #[trigger] bgr_of_rgb_ok(rgb@, m.data@, p)
        },
        r matches Err(e) ==> e matches CameraError::Io(_),
{
    if width > 0x7FFF_FFFFu32 / 3 || height > 0x7FFF_FFFF {
        return Err(CameraError::Io("Decoded image too large".to_owned()));
    }
    proof {
        assert((width as int) * (height as int) * 3 <= 0xFFFF_FFFF * (0xFFFF_FFFF * 3))
            by (nonlinear_arith)
            requires
                0 <= width as int <= 0xFFFF_FFFF,
                0 <= height as int <= 0xFFFF_FFFF,
        ;
    }
    let wide: u128 = (width as u128) * (height as u128) * 3;
    if wide > usize::MAX as u128 {
        return Err(CameraError::Io("Decoded image too large".to_owned()));
    }
    proof {
        assert(width as int * height as int * 3 == rgb@.len()) by (nonlinear_arith)
            requires
                rgb@.len() == 3 * width * height,
        ;
        lemma_triple_div(width as int * height as int);
        assert(3 * (rgb@.len() as int / 3) == rgb@.len() && rgb@.len() as int / 3 == width as int
            * height as int) by (nonlinear_arith)
            requires
                rgb@.len() == 3 * (width as int * height as int),
        ;
    }
    let bgr = swap_rb_channels(&rgb);
    let m = Mat {
        data: bgr,
        rows: height as i32,
        cols: width as i32,
        step: 3 * (width as usize),
        channels: 3,
    };
    proof {
        assert(m.data@.len() >= m.rows * m.step) by (nonlinear_arith)
            requires
                m.data@.len() == 3 * (m.cols as int * m.rows as int),
                m.step == 3 * m.cols as int,
                0 <= m.rows,
                0 <= m.cols,
        ;
    }
    Ok(m)
}

/// A zero-filled byte vector.
fn zero_vec(n: usize) -> (r: Vec<u8>)
    ensures
        r@.len() == n,
        forall|j: int| 0 <= j < n ==> r@[j] == 0u8,
{
    let mut v: Vec<u8> = Vec::new();
    let mut i: usize = 0;
    while i < n
        invariant
            i <= n,
            v@.len() == i,
            forall|j: int| 0 <= j < i ==> v@[j] == 0u8,
        decreases n - i,
    {
        v.push(0);
        i = i + 1;
    }
    v
}

/// Materializes one frame the bridge delivered into a BGR matrix, as the
/// synchronous `read` does: YUYV converts in place, MJPEG decodes and
/// reorders (the matrix then takes the decoded geometry), a payload already
/// in packed 3-byte form copies through, and anything else leaves a black
/// image of the advertised geometry.
pub fn update_mat_from_frame(
    mat: &mut Mat,
    width: u32,
    height: u32,
    data: Vec<u8>,
    fourcc: u32,
) -> (r: Result<(), CameraError>)
    requires
        3 * width <= i32::MAX,
        height <= i32::MAX,
        width * height * 3 <= usize::MAX,
    ensures
        r is Ok ==> final(mat).wf() && final(mat).channels == 3,
        fourcc != FourCC::MJPEG ==> {
            &&& r is Ok
            &&& final(mat).rows == height
            &&& final(mat).cols == width
            &&& final(mat).step == 3 * width
            &&& final(mat).data@.len() == width * height * 3
        },
        fourcc == FourCC::YUYV ==> (data@.len() >= width * height * 2 ==> forall|p: int|
            0 <= p < (width * height) as int / 2 ==> #[trigger] yuyv_pair_ok(
                data@,
                final(mat).data@,
                p,
            )),
        (fourcc == FourCC::YUYV && data@.len() < width * height * 2) ==> (forall|j: int|
            0 <= j < final(mat).data@.len() ==> final(mat).data@[j] == 0u8),
        (fourcc != FourCC::MJPEG && fourcc != FourCC::YUYV && data@.len() == width * height * 3)
            ==> final(mat).data@ == data@,
        (fourcc != FourCC::MJPEG && fourcc != FourCC::YUYV && data@.len() != width * height * 3)
            ==> (forall|j: int| 0 <= j < final(mat).data@.len() ==> final(mat).data@[j] == 0u8),
        fourcc == FourCC::MJPEG ==> {
            &&& (r is Err ==> (r matches Err(e) && e matches CameraError::Io(_)))
            &&& jpeg_rgb_of(data@) is None ==> r is Err
            &&& (r is Ok ==> {
                let d = jpeg_rgb_of(data@).unwrap();
                &&& final(mat).rows == d.1
                &&& final(mat).cols == d.0
                &&& final(mat).step == 3 * d.0
                &&& forall|p: int|
                    0 <= p < d.0 * d.1 ==> #[trigger] bgr_of_rgb_ok(d.2, final(mat).data@, p)
            })
        },
{
    if fourcc == FourCC::MJPEG {
        let decoded = decode_jpeg_rgb(&data);
        match decoded {
            None => {
                return Err(CameraError::Io("Failed to decode MJPEG".to_owned()));
            },
            Some(t) => {
                proof {
                    assert(t.2@.len() == 3 * (t.0 as int) * (t.1 as int));
                    assert(3 * (t.0 as int) * (t.1 as int) == 3 * ((t.0 as int) * (t.1 as int)))
                        by (nonlinear_arith);
                }
                let m = bgr_mat_from_rgb(t.0, t.1, t.2)?;
                *mat = m;
                return Ok(());
            },
        }
    }
    let target_len = (width as usize) * (height as usize) * 3;
    let mut fresh = zero_vec(target_len);
    if fourcc == FourCC::YUYV {
        yuyv_to_bgr(&data, &mut fresh, width as usize, height as usize);
    } else {
        if data.len() == target_len {
            fresh = data;
        }
    }
    let m = Mat {
        data: fresh,
        rows: height as i32,
        cols: width as i32,
        step: 3 * (width as usize),
        channels: 3,
    };
    proof {
        assert(m.data@.len() >= m.rows * m.step && m.step >= m.cols * m.channels)
            by (nonlinear_arith)
            requires
                m.data@.len() == (width as int) * (height as int) * 3,
                m.step == 3 * (width as int),
                m.rows == height as int,
                m.cols == width as int,
                m.channels == 3,
                0 <= m.rows,
                0 <= m.cols,
        ;
    }
    *mat = m;
    Ok(())
}

} // verus!
