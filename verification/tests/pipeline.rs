use snout::calibration::FaceShape;
use snout::capture::frame::Frame;
use snout::pipeline::{CompositeImage, EyeCompositor, FacePipeline};

#[test]
fn composite_image_starts_empty() {
    let image = CompositeImage::empty();
    assert!(image.data.is_empty());
    assert_eq!((image.width, image.height, image.channels), (0, 0, 8));
}

fn flat(value: u8) -> Frame {
    Frame::from_pixels(2, 2, vec![value; 4]).unwrap()
}

#[test]
fn compositor_needs_five_pairs_and_stacks_the_newest_four() {
    let mut compositor = EyeCompositor::new();
    // Uniform frames equalize to all-255, whatever their value; use a ramp per
    // frame so that each frame stays distinguishable after equalization.
    let frames: Vec<(Frame, Frame)> = (0..6u8)
        .map(|i| {
            let l = Frame::from_pixels(2, 2, vec![0, i, 100, 200]).unwrap();
            let r = Frame::from_pixels(2, 2, vec![200, 100, i, 0]).unwrap();
            (l, r)
        })
        .collect();
    for (l, r) in frames.iter().take(4) {
        assert!(compositor.fits(l, r));
        assert!(compositor.compose(l, r).is_none());
    }
    let image = compositor.compose(&frames[4].0, &frames[4].1).expect("fifth pair composes");
    assert_eq!((image.width, image.height, image.channels), (2, 2, 8));
    assert_eq!(image.data.len(), 32);
    // Channel 0 is the newest right frame, channel 1 the newest left frame.
    let right_newest = &image.data[0..4];
    let left_newest = &image.data[4..8];
    assert_eq!(right_newest[0], 255);
    assert_eq!(left_newest[3], 255);
    assert!(compositor.compose(&frames[5].0, &frames[5].1).is_some());
}

#[test]
fn equalization_changes_pixels() {
    let mut compositor = EyeCompositor::new();
    let f = flat(10);
    for _ in 0..4 {
        assert!(compositor.compose(&f, &f).is_none());
    }
    let image = compositor.compose(&f, &f).unwrap();
    // A uniform image equalizes to full intensity, not to its own value.
    assert!(image.data.iter().all(|&p| p == 255));
}

#[test]
fn compositor_refuses_frames_of_another_size() {
    let mut compositor = EyeCompositor::new();
    let a = flat(1);
    assert!(compositor.compose(&a, &a).is_none());
    let b = Frame::from_pixels(1, 2, vec![1, 2]).unwrap();
    assert!(!compositor.fits(&b, &b));
    assert!(!compositor.fits(&a, &b));
    assert!(compositor.fits(&a, &a));
}

#[test]
fn face_pipeline_maps_outputs_in_model_order() {
    let pipeline = FacePipeline::new();
    for i in 0..FaceShape::count() {
        assert_eq!(pipeline.output_shape(i), Some(FaceShape::from_index(i)));
    }
    assert_eq!(pipeline.output_shape(0), Some(FaceShape::CheekPuffLeft));
    assert_eq!(pipeline.output_shape(45), None);
}

#[test]
fn face_outputs_map_to_shapes_in_model_order() {
    let pipeline = FacePipeline::new();
    let outputs: Vec<u32> = (0..3u32).map(|i| (i as f32 * 0.25).to_bits()).collect();
    let weights = pipeline.map_outputs(&outputs);
    assert_eq!(weights.len(), 3);
    for (i, (shape, bits)) in weights.iter().enumerate() {
        assert_eq!(*shape, FaceShape::from_index(i));
        assert_eq!(f32::from_bits(*bits), i as f32 * 0.25);
    }
    // Outputs beyond the shapes are ignored.
    let many = vec![0u32; FaceShape::count() + 4];
    assert_eq!(pipeline.map_outputs(&many).len(), FaceShape::count());
}

#[test]
fn compositor_history_keeps_the_four_newest_pairs() {
    // Frames whose equalized pixels identify them: value i at one pixel, the rest 0.
    let make = |i: u8| Frame::from_pixels(2, 2, vec![0, 0, 0, i]).unwrap();
    let mut compositor = EyeCompositor::new();
    let mut composites = Vec::new();
    for i in 1..=7u8 {
        let (l, r) = (make(i), make(i + 100));
        composites.push(compositor.compose(&l, &r).map(|image| image.data.clone()));
    }
    assert!(composites[..4].iter().all(|c| c.is_none()));
    // Each later composite holds the equalized pairs of the four newest calls,
    // newest first, right before left: here each equalized frame is the same
    // shape, so each composite is 32 bytes of eight identical planes.
    for c in &composites[4..] {
        let data = c.as_ref().expect("composite");
        assert_eq!(data.len(), 32);
        for plane in data.chunks(4) {
            assert_eq!(plane, &data[0..4]);
        }
    }
}
