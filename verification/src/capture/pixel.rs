//! Pixel formats delivered by capture devices, and their conversion to 8-bit luma.

use vstd::prelude::*;
use vstd::string::StringExecFns;

use crate::capture::error::CameraError;
use crate::text::{decimal, push_decimal};
use crate::capture::frame::{Frame, FrameView};

verus! {

#[verifier::external_type_specification]
#[verifier::external_body]
pub struct ExImageError(image::ImageError);

/// The pixel formats the library can read from a capture device.
#[derive(Copy, Clone, Debug, PartialEq, Eq, Structural)]
pub enum PixelFormat {
    /// 8-bit luma, one byte per pixel.
    Grey,
    /// Packed 4:2:2 with the luma byte first in each pair (`Y U Y V`).
    Yuyv,
    /// Packed 4:2:2 with the luma byte second in each pair (`U Y V Y`).
    Uyvy,
    /// Motion JPEG: every frame is a JPEG image.
    Mjpeg,
}

/// The pixel format named by a four character code, if the library reads it.
pub open spec fn format_of_fourcc(fourcc: Seq<u8>) -> Option<PixelFormat> {
    if fourcc == seq![71u8, 82u8, 69u8, 89u8] {
        Some(PixelFormat::Grey)
    } else if fourcc == seq![89u8, 85u8, 89u8, 86u8] {
        Some(PixelFormat::Yuyv)
    } else if fourcc == seq![85u8, 89u8, 86u8, 89u8] {
        Some(PixelFormat::Uyvy)
    } else if fourcc == seq![77u8, 74u8, 80u8, 71u8] {
        Some(PixelFormat::Mjpeg)
    } else {
        None
    }
}

/// A four character code as the standard library's `Debug` renders a byte
/// array: its bytes in decimal, between brackets, separated by `, `.
pub open spec fn fourcc_debug(fourcc: Seq<u8>) -> Seq<char> {
    "["@ + decimal(fourcc[0] as nat) + ", "@ + decimal(fourcc[1] as nat) + ", "@ + decimal(fourcc[2] as nat)
        + ", "@ + decimal(fourcc[3] as nat) + "]"@
}

/// The message of the error for an unknown four character code.
pub open spec fn unknown_format_message(fourcc: Seq<u8>) -> Seq<char> {
    "Unknown pixel format: "@ + fourcc_debug(fourcc)
}

/// Maps a four character code (`GREY`, `YUYV`, `UYVY` or `MJPG`) to its pixel
/// format; any other code is an invalid format.
pub fn pixel_format(fourcc: &[u8; 4]) -> (r: Result<PixelFormat, CameraError>)
    ensures
        match format_of_fourcc(fourcc@) {
            Some(f) => r == Ok::<PixelFormat, CameraError>(f),
            None => r matches Err(CameraError::InvalidFormat(m)) && m@ == unknown_format_message(fourcc@),
        },
{
    let a = fourcc[0];
    let b = fourcc[1];
    let c = fourcc[2];
    let d = fourcc[3];
    assert(fourcc@ == seq![a, b, c, d]);
    if a == 71 && b == 82 && c == 69 && d == 89 {
        Ok(PixelFormat::Grey)
    } else if a == 89 && b == 85 && c == 89 && d == 86 {
        Ok(PixelFormat::Yuyv)
    } else if a == 85 && b == 89 && c == 86 && d == 89 {
        Ok(PixelFormat::Uyvy)
    } else if a == 77 && b == 74 && c == 80 && d == 71 {
        Ok(PixelFormat::Mjpeg)
    } else {
        let mut message = String::from_str("Unknown pixel format: [");
        push_decimal(&mut message, a);
        message.append(", ");
        push_decimal(&mut message, b);
        message.append(", ");
        push_decimal(&mut message, c);
        message.append(", ");
        push_decimal(&mut message, d);
        message.append("]");
        proof {
            reveal_strlit("Unknown pixel format: [");
            reveal_strlit("Unknown pixel format: ");
            reveal_strlit("[");
            reveal_strlit(", ");
            reveal_strlit("]");
            assert(message@ =~= unknown_format_message(fourcc@));
        }
        Err(CameraError::InvalidFormat(message))
    }
}

/// `dest` after copying into it every second byte of `buf` from position `offset`
/// on, for as long as both last; pixels beyond that keep their value.
pub open spec fn packed_luma(buf: Seq<u8>, offset: int, dest: Seq<u8>) -> Seq<u8> {
    Seq::new(
        dest.len(),
        |i: int|
            if offset + 2 * i < buf.len() {
                buf[offset + 2 * i]
            } else {
                dest[i]
            },
    )
}

/// The luma plane of a raw (uncompressed) buffer in format `format`, written over `dest`.
pub open spec fn raw_luma(format: PixelFormat, buf: Seq<u8>, dest: Seq<u8>) -> Seq<u8> {
    match format {
        PixelFormat::Grey => buf,
        PixelFormat::Yuyv => packed_luma(buf, 0, dest),
        PixelFormat::Uyvy => packed_luma(buf, 1, dest),
        PixelFormat::Mjpeg => dest,
    }
}

/// Writes the luma plane of a raw buffer into `dest`.
///
/// `GREY` buffers are copied as they are and must be exactly as long as `dest`;
/// packed 4:2:2 buffers give one luma byte per pair, filling `dest` from the
/// start for as long as the buffer lasts. An `UYVY` buffer may not be empty.
pub fn extract_luma(format: PixelFormat, buf: &[u8], dest: &mut Vec<u8>)
    requires
        format != PixelFormat::Mjpeg,
        format == PixelFormat::Grey ==> buf@.len() == old(dest)@.len(),
        format == PixelFormat::Uyvy ==> buf@.len() >= 1,
    ensures
        final(dest)@ == raw_luma(format, buf@, old(dest)@),
{
    let n = dest.len();
    let len = buf.len();
    let offset: usize = if format == PixelFormat::Uyvy { 1 } else { 0 };
    if format == PixelFormat::Grey {
        let mut i: usize = 0;
        while i < n
            invariant
                n == dest@.len(),
                len == buf@.len(),
                len == n,
                forall|k: int| 0 <= k < i ==> dest@[k] == buf@[k],
            decreases n - i,
        {
            dest[i] = buf[i];
            i = i + 1;
        }
        assert(dest@ =~= buf@);
        return;
    }
    let ghost old_dest = dest@;
    let available = if len >= offset { (len - offset) / 2 + (len - offset) % 2 } else { 0 };
    let count = if available < n { available } else { n };
    let mut i: usize = 0;
    while i < count
        invariant
            n == dest@.len(),
            n == old_dest.len(),
            len == buf@.len(),
            offset <= 1,
            count <= n,
            i <= count,
            offset + 2 * count <= len + 1,
            forall|k: int| 0 <= k < n ==> #[trigger] dest@[k] == if k < i {
                buf@[offset + 2 * k]
            } else {
                old_dest[k]
            },
        decreases count - i,
    {
        dest[i] = buf[offset + 2 * i];
        i = i + 1;
    }
    assert(count < n ==> offset + 2 * count >= len);
    assert forall|k: int| 0 <= k < n implies #[trigger] dest@[k] == packed_luma(buf@, offset as int, old_dest)[k] by {
        if k < count {
            assert(offset + 2 * k < len);
        } else {
            assert(offset + 2 * k >= len);
        }
    }
    assert(dest@ =~= packed_luma(buf@, offset as int, old_dest));
}

/// What `image::load_from_memory` followed by `into_luma8` makes of an encoded
/// image: its width, its height and its raw luma buffer.
pub uninterp spec fn decoded_luma(bytes: Seq<u8>) -> Option<(u32, u32, Seq<u8>)>;

/// Decodes an encoded image (such as a JPEG) to 8-bit luma with
/// `image::load_from_memory(bytes)` and `DynamicImage::into_luma8`, returning the
/// width, the height and the raw buffer.
///
/// The result is named by [`decoded_luma`]. The raw buffer of an image buffer is
/// at least one byte per pixel long: `ImageBuffer::from_raw` refuses a shorter one.
#[verifier::external_body]
fn load_luma(bytes: &[u8]) -> (r: Result<(u32, u32, Vec<u8>), image::ImageError>)
    ensures
        match r {
            Ok((w, h, p)) => decoded_luma(bytes@) == Some((w, h, p@)) && p@.len() >= w * h,
            Err(_) => decoded_luma(bytes@) is None,
        },
{
    image::load_from_memory(bytes).map(|img| {
        let luma = img.into_luma8();
        (luma.width(), luma.height(), luma.into_raw())
    })
}

/// The text of an image error, by its `Display` implementation.
///
/// Nothing is stated of the text, which the `image` crate decides.
#[verifier::external_body]
fn image_error_text(e: &image::ImageError) -> String {
    e.to_string()
}

/// The frame that an encoded image decodes to, if it decodes.
pub open spec fn decoded_frame(bytes: Seq<u8>) -> Option<FrameView> {
    match decoded_luma(bytes) {
        Some((w, h, p)) => Some(
            FrameView { width: w as nat, height: h as nat, pixels: p.subrange(0, w * h) },
        ),
        None => None,
    }
}

/// A decoded frame has the width and the height that the decoder reports for
/// the image, and its first `width * height` luma bytes, row by row.
pub proof fn lemma_decoded_frame_keeps_the_image_size(bytes: Seq<u8>)
    ensures
        decoded_luma(bytes) matches Some((w, h, p)) ==> decoded_frame(bytes) == Some(
            FrameView { width: w as nat, height: h as nat, pixels: p.subrange(0, w * h) },
        ),
        decoded_luma(bytes) is None ==> decoded_frame(bytes) is None,
{
}

/// Decodes an encoded image (such as one MJPEG frame) to a grayscale frame; an
/// image that does not decode is an invalid frame.
pub fn decode_gray(bytes: &[u8]) -> (r: Result<Frame, CameraError>)
    ensures
        match decoded_frame(bytes@) {
            Some(f) => r matches Ok(frame) && frame@ == f,
            None => r matches Err(CameraError::InvalidFrame(_)),
        },
        decoded_luma(bytes@) matches Some((w, h, p)) ==> (r matches Ok(frame) && frame@.width == w
            && frame@.height == h && frame@.pixels == p.subrange(0, w * h)),
        decoded_luma(bytes@) is None ==> r matches Err(CameraError::InvalidFrame(_)),
{
    match load_luma(bytes) {
        Ok((w, h, mut p)) => {
            let wu = w as usize;
            let hu = h as usize;
            let plen = p.len();
            assert(wu * hu <= plen);
            let n = wu * hu;
            p.truncate(n);
            match Frame::from_pixels(wu, hu, p) {
                Some(frame) => Ok(frame),
                None => Err(CameraError::Internal("decoded image has the wrong size".to_string())),
            }
        },
        Err(e) => Err(CameraError::InvalidFrame(image_error_text(&e))),
    }
}

} // verus!
