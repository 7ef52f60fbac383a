//! Where frames come from: local V4L2 devices and MJPEG streams over HTTP.

use vstd::prelude::*;

verus! {

/// A capture format of a V4L2 device.
#[derive(Copy, Clone, Debug, PartialEq, Eq, Structural)]
pub struct CameraFormat {
    pub width: u32,
    pub height: u32,
    pub fps: u32,
}

/// A V4L2 capture device and the format to open it with.
#[derive(Copy, Clone, Debug)]
pub struct V4lSource {
    /// Device index, as in `/dev/video<index>`.
    pub index: u32,
    pub format: CameraFormat,
    /// Four character code of the pixel format, such as `YUYV`.
    pub fourcc: [u8; 4],
}

/// An MJPEG stream served over HTTP.
#[derive(Clone, Debug)]
pub struct HttpSource {
    pub url: String,
}

/// A camera source.
#[derive(Clone, Debug)]
pub enum CameraSource {
    V4l(V4lSource),
    Http(HttpSource),
}

/// The mathematical value of a [`CameraSource`].
pub enum CameraSourceView {
    V4l(V4lSource),
    Http(Seq<char>),
}

impl View for CameraSource {
    type V = CameraSourceView;

    open spec fn view(&self) -> CameraSourceView {
        match self {
            CameraSource::V4l(s) => CameraSourceView::V4l(*s),
            CameraSource::Http(s) => CameraSourceView::Http(s.url@),
        }
    }
}

impl CameraSource {
    /// Whether two sources name the same camera in the same format.
    pub fn same(&self, other: &CameraSource) -> (r: bool)
        ensures
            r == (self@ == other@),
    {
        match (self, other) {
            (CameraSource::V4l(a), CameraSource::V4l(b)) => {
                let same = a.index == b.index && a.format == b.format && a.fourcc[0] == b.fourcc[0]
                    && a.fourcc[1] == b.fourcc[1] && a.fourcc[2] == b.fourcc[2] && a.fourcc[3]
                    == b.fourcc[3];
                proof {
                    if same {
                        assert(a.fourcc@ =~= b.fourcc@);
                        assert(a.fourcc =~= b.fourcc);
                    }
                }
                same
            },
            (CameraSource::Http(a), CameraSource::Http(b)) => a.url == b.url,
            _ => false,
        }
    }
}

} // verus!
