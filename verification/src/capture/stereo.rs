use vstd::prelude::*;

use crate::capture::error::CameraError;
use crate::capture::frame::{pixel, Frame, FrameView};
use crate::capture::source::{CameraSource, CameraSourceView};
use crate::control::event::Side;

verus! {

/// Makes `frame` a `width` by `height` frame: a frame of another size is replaced
/// by a black one, a frame of that size is kept as it is.
pub fn ensure_size(frame: &mut Frame, width: usize, height: usize)
    requires
        width <= u32::MAX,
        height <= u32::MAX,
        width * height <= usize::MAX,
    ensures
        if old(frame)@.width == width && old(frame)@.height == height {
            final(frame)@ == old(frame)@
        } else {
            final(frame)@ == (FrameView {
                width: width as nat,
                height: height as nat,
                pixels: Seq::new((width * height) as nat, |i: int| 0u8),
            })
        },
{
    if frame.width() != width || frame.height() != height {
        *frame = Frame::empty(width as u32, height as u32);
    }
}

/// Splits a side-by-side frame into its left and right halves.
///
/// `left` and `right` are resized to half the width of `full` when needed, and
/// each takes the pixels of its half of `full`, row by row.
pub fn split_sbs(full: &Frame, left: &mut Frame, right: &mut Frame)
    requires
        full@.width % 2 == 0,
        full@.width / 2 <= u32::MAX,
        full@.height <= u32::MAX,
    ensures
        final(left)@.width == full@.width / 2,
        final(left)@.height == full@.height,
        final(right)@.width == full@.width / 2,
        final(right)@.height == full@.height,
        forall|x: int, y: int|
            0 <= x < full@.width / 2 && 0 <= y < full@.height ==> #[trigger] pixel(final(left)@, x, y)
                == pixel(full@, x, y),
        forall|x: int, y: int|
            0 <= x < full@.width / 2 && 0 <= y < full@.height ==> #[trigger] pixel(final(right)@, x, y)
                == pixel(full@, full@.width / 2 + x, y),
{
    let full_width = full.width();
    let height = full.height();
    let half_width = full_width / 2;
    let full_len = full.as_slice().len();
    assert(full_len == full_width * height);
    assert(half_width * height <= usize::MAX) by (nonlinear_arith)
        requires
            half_width <= full_width,
            full_width * height <= usize::MAX,
    {}
    ensure_size(left, half_width, height);
    ensure_size(right, half_width, height);

    for y in 0..height
        invariant
            full_width == full@.width,
            height == full@.height,
            half_width == full_width / 2,
            full_width % 2 == 0,
            left@.width == half_width,
            left@.height == height,
            right@.width == half_width,
            right@.height == height,
            forall|xx: int, yy: int|
                0 <= xx < half_width && 0 <= yy < y ==> #[trigger] pixel(left@, xx, yy) == pixel(full@, xx, yy),
            forall|xx: int, yy: int|
                0 <= xx < half_width && 0 <= yy < y ==> #[trigger] pixel(right@, xx, yy) == pixel(full@, half_width + xx, yy),
    {
        for x in 0..half_width
            invariant
                full_width == full@.width,
                height == full@.height,
                half_width == full_width / 2,
                full_width % 2 == 0,
                y < height,
                left@.width == half_width,
                left@.height == height,
                right@.width == half_width,
                right@.height == height,
                forall|xx: int, yy: int|
                    0 <= xx < half_width && 0 <= yy < y ==> #[trigger] pixel(left@, xx, yy) == pixel(full@, xx, yy),
                forall|xx: int, yy: int|
                    0 <= xx < half_width && 0 <= yy < y ==> #[trigger] pixel(right@, xx, yy) == pixel(full@, half_width + xx, yy),
                forall|xx: int|
                    0 <= xx < x ==> #[trigger] pixel(left@, xx, y as int) == pixel(full@, xx, y as int),
                forall|xx: int|
                    0 <= xx < x ==> #[trigger] pixel(right@, xx, y as int) == pixel(full@, half_width + xx, y as int),
        {
            let a = full.get_pixel(x, y);
            let b = full.get_pixel(half_width + x, y);
            left.set_pixel(x, y, a);
            right.set_pixel(x, y, b);
        }
    }
}

/// How a stereo (two-eye) camera is put together from the configured eye sources.
#[derive(Copy, Clone, Debug, PartialEq, Eq, Structural)]
pub enum StereoLayout {
    /// Two independent cameras, one per eye.
    Dual,
    /// A single camera whose frames pack both eyes side by side.
    SideBySide,
    /// A single camera, the one configured for `side`, whose frames feed both eyes.
    Duplicate { side: Side },
}

/// The layout implied by the configured eye sources: the same camera for both
/// eyes is side by side, two different cameras are dual, a single camera is
/// duplicated to both eyes, and no camera at all is no layout.
pub open spec fn layout_of(left: Option<CameraSourceView>, right: Option<CameraSourceView>) -> Option<StereoLayout> {
    match (left, right) {
        (Some(l), Some(r)) => if l == r {
            Some(StereoLayout::SideBySide)
        } else {
            Some(StereoLayout::Dual)
        },
        (Some(_), None) => Some(StereoLayout::Duplicate { side: Side::Left }),
        (None, Some(_)) => Some(StereoLayout::Duplicate { side: Side::Right }),
        (None, None) => None,
    }
}

/// The view of an optional source.
pub open spec fn source_view(s: Option<&CameraSource>) -> Option<CameraSourceView> {
    match s {
        Some(s) => Some(s@),
        None => None,
    }
}

/// Picks the stereo layout for the configured eye sources.
///
/// With neither source set there is nothing to open: the sources are invalid.
pub fn stereo_layout(left: Option<&CameraSource>, right: Option<&CameraSource>) -> (r: Result<StereoLayout, CameraError>)
    ensures
        match layout_of(source_view(left), source_view(right)) {
            Some(layout) => r == Ok::<StereoLayout, CameraError>(layout),
            None => r matches Err(CameraError::InvalidSources),
        },
{
    match (left, right) {
        (Some(l), Some(r)) => if l.same(r) {
            Ok(StereoLayout::SideBySide)
        } else {
            Ok(StereoLayout::Dual)
        },
        (Some(_), None) => Ok(StereoLayout::Duplicate { side: Side::Left }),
        (None, Some(_)) => Ok(StereoLayout::Duplicate { side: Side::Right }),
        (None, None) => Err(CameraError::InvalidSources),
    }
}

} // verus!
