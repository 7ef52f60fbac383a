use image::ImageEncoder;
use snout::capture::error::CameraError;
use snout::capture::frame::Frame;
use snout::capture::mjpeg::{find, FrameStep, JpegFrames, MAX_FRAME, READ_CHUNK};
use snout::capture::pixel::{decode_gray, extract_luma, pixel_format, PixelFormat};
use snout::capture::source::{CameraFormat, CameraSource, HttpSource, V4lSource};
use snout::capture::stereo::{ensure_size, split_sbs, stereo_layout, StereoLayout};
use snout::control::Side;
use snout::track::eye::SourcePair;

fn frame(width: usize, height: usize, pixels: Vec<u8>) -> Frame {
    Frame::from_pixels(width, height, pixels).expect("size matches")
}

#[test]
fn frame_from_pixels_checks_size() {
    assert!(Frame::from_pixels(2, 2, vec![0; 3]).is_none());
    assert!(Frame::from_pixels(0, 5, vec![1]).is_none());
    let f = frame(3, 2, vec![1, 2, 3, 4, 5, 6]);
    assert_eq!((f.width(), f.height()), (3, 2));
    assert_eq!(f.get_pixel(2, 1), 6);
    assert_eq!(f.as_slice(), &[1, 2, 3, 4, 5, 6]);
    let e = Frame::empty(2, 3);
    assert_eq!(e.as_slice(), &[0; 6]);
}

#[test]
fn split_side_by_side() {
    let full = frame(4, 2, vec![1, 2, 3, 4, 5, 6, 7, 8]);
    let mut left = Frame::empty(0, 0);
    let mut right = Frame::empty(0, 0);
    split_sbs(&full, &mut left, &mut right);
    assert_eq!((left.width(), left.height()), (2, 2));
    assert_eq!(left.as_slice(), &[1, 2, 5, 6]);
    assert_eq!(right.as_slice(), &[3, 4, 7, 8]);

    // Reused buffers of the right size are overwritten in place.
    let full = frame(4, 2, vec![9, 8, 7, 6, 5, 4, 3, 2]);
    split_sbs(&full, &mut left, &mut right);
    assert_eq!(left.as_slice(), &[9, 8, 5, 4]);
    assert_eq!(right.as_slice(), &[7, 6, 3, 2]);
}

#[test]
fn ensure_size_keeps_or_replaces() {
    let mut f = frame(2, 1, vec![7, 7]);
    ensure_size(&mut f, 2, 1);
    assert_eq!(f.as_slice(), &[7, 7]);
    ensure_size(&mut f, 1, 3);
    assert_eq!((f.width(), f.height()), (1, 3));
    assert_eq!(f.as_slice(), &[0, 0, 0]);
}

#[test]
fn find_markers() {
    assert_eq!(find(&[0, 0xFF, 0xD8, 0xFF, 0xD8], &[0xFF, 0xD8]), Some(1));
    assert_eq!(find(&[0xFF], &[0xFF, 0xD8]), None);
    assert_eq!(find(&[], &[0xFF, 0xD8]), None);
    assert_eq!(find(&[0xD8, 0xFF], &[0xFF, 0xD8]), None);
}

#[test]
fn jpeg_frames_are_cut_between_markers() {
    let mut frames = JpegFrames::new();
    assert!(matches!(frames.step(), FrameStep::NeedData));
    frames.feed(&[1, 2, 0xFF, 0xD8, 10, 11]);
    assert!(matches!(frames.step(), FrameStep::NeedData));
    frames.feed(&[0xFF, 0xD9, 0xFF, 0xD8, 0xFF, 0xD9, 3]);
    match frames.step() {
        FrameStep::Frame(f) => assert_eq!(f, vec![0xFF, 0xD8, 10, 11, 0xFF, 0xD9]),
        _ => panic!("expected a frame"),
    }
    match frames.extract_frame() {
        Some(f) => assert_eq!(f, vec![0xFF, 0xD8, 0xFF, 0xD9]),
        None => panic!("expected a frame"),
    }
    assert!(frames.extract_frame().is_none());
    frames.feed(&[]);
    assert!(matches!(frames.step(), FrameStep::End));
}

#[test]
fn jpeg_end_marker_must_follow_the_start_marker() {
    let mut frames = JpegFrames::new();
    frames.feed(&[0xFF, 0xD9, 0xFF, 0xD8, 0xFF, 0xD9]);
    assert_eq!(frames.extract_frame(), Some(vec![0xFF, 0xD8, 0xFF, 0xD9]));
}

#[test]
fn jpeg_buffer_is_dropped_when_it_overflows() {
    let mut frames = JpegFrames::new();
    let chunk = vec![0u8; READ_CHUNK];
    for _ in 0..(MAX_FRAME / READ_CHUNK) {
        frames.feed(&chunk);
    }
    frames.feed(&[0xFF, 0xD8]);
    // The buffer went past MAX_FRAME and was cleared, start marker included.
    frames.feed(&[0xFF, 0xD9]);
    assert!(frames.extract_frame().is_none());
    frames.feed(&[0xFF, 0xD8, 0xFF, 0xD9]);
    assert_eq!(frames.extract_frame(), Some(vec![0xFF, 0xD8, 0xFF, 0xD9]));
}

#[test]
fn pixel_formats_by_fourcc() {
    assert_eq!(pixel_format(b"GREY").unwrap(), PixelFormat::Grey);
    assert_eq!(pixel_format(b"YUYV").unwrap(), PixelFormat::Yuyv);
    assert_eq!(pixel_format(b"UYVY").unwrap(), PixelFormat::Uyvy);
    assert_eq!(pixel_format(b"MJPG").unwrap(), PixelFormat::Mjpeg);
    match pixel_format(b"NV12") {
        Err(CameraError::InvalidFormat(message)) => assert!(message.starts_with("Unknown pixel format")),
        other => panic!("unexpected {other:?}"),
    }
}

#[test]
fn luma_extraction() {
    let mut dest = vec![0u8; 3];
    extract_luma(PixelFormat::Grey, &[4, 5, 6], &mut dest);
    assert_eq!(dest, vec![4, 5, 6]);

    let mut dest = vec![0u8; 3];
    extract_luma(PixelFormat::Yuyv, &[10, 1, 11, 2, 12, 3], &mut dest);
    assert_eq!(dest, vec![10, 11, 12]);

    let mut dest = vec![0u8; 3];
    extract_luma(PixelFormat::Uyvy, &[1, 10, 2, 11, 3, 12], &mut dest);
    assert_eq!(dest, vec![10, 11, 12]);

    // A short buffer fills what it can; the rest keeps its value.
    let mut dest = vec![9u8; 3];
    extract_luma(PixelFormat::Yuyv, &[10, 1, 11], &mut dest);
    assert_eq!(dest, vec![10, 11, 9]);
}

#[test]
fn decode_gray_rejects_garbage() {
    assert!(matches!(decode_gray(&[1, 2, 3]), Err(CameraError::InvalidFrame(_))));
}

#[test]
fn decode_gray_decodes_a_jpeg() {
    let mut jpeg = Vec::new();
    {
        image::codecs::jpeg::JpegEncoder::new_with_quality(&mut jpeg, 100)
            .write_image(&[128u8; 64], 8, 8, image::ExtendedColorType::L8)
            .unwrap();
    }
    let frame = decode_gray(&jpeg).expect("a valid jpeg decodes");
    assert_eq!((frame.width(), frame.height()), (8, 8));
    assert_eq!(frame.as_slice().len(), 64);
    assert!(frame.as_slice().iter().all(|&p| (126..=130).contains(&p)));
}

fn v4l(index: u32) -> CameraSource {
    CameraSource::V4l(V4lSource {
        index,
        format: CameraFormat { width: 640, height: 480, fps: 60 },
        fourcc: *b"YUYV",
    })
}

#[test]
fn stereo_layouts() {
    let a = v4l(0);
    let b = v4l(1);
    let h = CameraSource::Http(HttpSource { url: "http://cam".to_string() });
    assert_eq!(stereo_layout(Some(&a), Some(&v4l(0))).unwrap(), StereoLayout::SideBySide);
    assert_eq!(stereo_layout(Some(&a), Some(&b)).unwrap(), StereoLayout::Dual);
    assert_eq!(stereo_layout(Some(&h), Some(&h.clone())).unwrap(), StereoLayout::SideBySide);
    assert_eq!(stereo_layout(Some(&a), Some(&h)).unwrap(), StereoLayout::Dual);
    assert_eq!(stereo_layout(Some(&a), None).unwrap(), StereoLayout::Duplicate { side: Side::Left });
    assert_eq!(stereo_layout(None, Some(&b)).unwrap(), StereoLayout::Duplicate { side: Side::Right });
    assert!(matches!(stereo_layout(None, None), Err(CameraError::InvalidSources)));
}

#[test]
fn crop_copies_the_region_inside_the_frame() {
    // 4 x 3 frame with pixel value 10 * row + column.
    let pixels: Vec<u8> = (0..3u8).flat_map(|y| (0..4u8).map(move |x| 10 * y + x)).collect();
    let f = frame(4, 3, pixels);
    let c = f.crop(1, 1, 2, 2);
    assert_eq!((c.width(), c.height()), (2, 2));
    assert_eq!(c.as_slice(), &[11, 12, 21, 22]);

    // A region reaching past the frame is cut at its edges.
    let c = f.crop(2, 1, 10, 10);
    assert_eq!((c.width(), c.height()), (2, 2));
    assert_eq!(c.as_slice(), &[12, 13, 22, 23]);

    // A corner outside the frame gives an empty frame.
    let c = f.crop(9, 0, 2, 2);
    assert_eq!((c.width(), c.height()), (0, 2));
    assert!(c.as_slice().is_empty());
}

#[test]
fn eye_sources_report_changes() {
    let mut pair = SourcePair::new();
    assert!(!pair.wants_camera());
    assert!(pair.set(Some(v4l(0)), None));
    assert!(pair.wants_camera());
    assert!(!pair.set(Some(v4l(0)), None));
    assert!(pair.set(Some(v4l(0)), Some(v4l(0))));
    assert!(pair.set(None, None));
    assert!(!pair.wants_camera());
    assert!(pair.left().is_none() && pair.right().is_none());
}

#[test]
fn unknown_fourcc_message_is_exact() {
    match pixel_format(b"ABCD") {
        Err(CameraError::InvalidFormat(message)) => {
            assert_eq!(message, "Unknown pixel format: [65, 66, 67, 68]")
        }
        other => panic!("unexpected {other:?}"),
    }
}

#[test]
fn a_stream_in_chunks_yields_its_frames_in_order_then_the_end() {
    let jpeg = |b: u8| vec![0xFF, 0xD8, b, b, 0xFF, 0xD9];
    let mut stream = vec![1, 2, 3];
    stream.extend(jpeg(7));
    stream.extend([0xFF, 0x00]);
    stream.extend(jpeg(8));
    stream.extend(jpeg(9));
    stream.extend([0xFF, 0xD8, 5]);
    let mut frames = JpegFrames::new();
    let mut chunks = stream.chunks(3);
    let mut out = Vec::new();
    loop {
        match frames.step() {
            FrameStep::Frame(f) => out.push(f),
            FrameStep::End => break,
            FrameStep::NeedData => frames.feed(chunks.next().unwrap_or(&[])),
        }
    }
    assert_eq!(out, vec![jpeg(7), jpeg(8), jpeg(9)]);
    assert!(matches!(frames.step(), FrameStep::End));
    assert!(matches!(frames.step(), FrameStep::End));
}

#[test]
fn unknown_fourcc_message_renders_every_byte_in_decimal() {
    let code = [255u8, 0, 7, 100];
    match pixel_format(&code) {
        Err(CameraError::InvalidFormat(message)) => {
            assert_eq!(message, format!("Unknown pixel format: {:?}", code));
            assert_eq!(message, "Unknown pixel format: [255, 0, 7, 100]");
        }
        other => panic!("unexpected {other:?}"),
    }
}
