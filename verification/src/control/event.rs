use vstd::prelude::*;

use crate::calibration::FaceShape;

verus! {

/// Which eye an event is about.
#[derive(Copy, Clone, Debug, PartialEq, Eq, Structural)]
pub enum Side {
    Left,
    Right,
}

/// A control event for the face tracker.
#[derive(Clone, Debug)]
pub enum FaceEvent {
    /// Start a neutral-hold calibration of the lower bounds over `frames` frames.
    CalibrateLower { frames: u32 },
    /// Capture the peak of `shape` over `frames` frames as its upper bound.
    CalibrateUpper { shape: FaceShape, frames: u32 },
    /// Set the input range of `shape`; `lower` and `upper` are `f32` bit patterns.
    SetBounds { shape: FaceShape, lower: u32, upper: u32 },
    /// Write the next processed face frame to the absolute path `path`.
    Capture { path: String },
}

/// A control event for the eye tracker.
#[derive(Clone, Debug)]
pub enum EyeEvent {
    /// Write the next processed frame of one eye to the absolute path `path`.
    Capture { side: Side, path: String },
}

/// A decoded control command.
#[derive(Clone, Debug)]
pub enum ControlEvent {
    Face { event: FaceEvent },
    Eye { event: EyeEvent },
}

/// The mathematical value of a [`FaceEvent`].
pub enum FaceEventView {
    CalibrateLower { frames: u32 },
    CalibrateUpper { shape: FaceShape, frames: u32 },
    SetBounds { shape: FaceShape, lower: u32, upper: u32 },
    Capture { path: Seq<char> },
}

/// The mathematical value of an [`EyeEvent`].
pub enum EyeEventView {
    Capture { side: Side, path: Seq<char> },
}

/// The mathematical value of a [`ControlEvent`].
pub enum ControlEventView {
    Face { event: FaceEventView },
    Eye { event: EyeEventView },
}

impl View for FaceEvent {
    type V = FaceEventView;

    open spec fn view(&self) -> FaceEventView {
        match self {
            FaceEvent::CalibrateLower { frames } => FaceEventView::CalibrateLower { frames: *frames },
            FaceEvent::CalibrateUpper { shape, frames } => FaceEventView::CalibrateUpper {
                shape: *shape,
                frames: *frames,
            },
            FaceEvent::SetBounds { shape, lower, upper } => FaceEventView::SetBounds {
                shape: *shape,
                lower: *lower,
                upper: *upper,
            },
            FaceEvent::Capture { path } => FaceEventView::Capture { path: path@ },
        }
    }
}

impl View for EyeEvent {
    type V = EyeEventView;

    open spec fn view(&self) -> EyeEventView {
        match self {
            EyeEvent::Capture { side, path } => EyeEventView::Capture { side: *side, path: path@ },
        }
    }
}

impl View for ControlEvent {
    type V = ControlEventView;

    open spec fn view(&self) -> ControlEventView {
        match self {
            ControlEvent::Face { event } => ControlEventView::Face { event: event@ },
            ControlEvent::Eye { event } => ControlEventView::Eye { event: event@ },
        }
    }
}

} // verus!
