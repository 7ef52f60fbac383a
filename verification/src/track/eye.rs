//! The camera sources of the eye tracker, and when its camera is (re)opened.

use vstd::prelude::*;

use crate::capture::source::{CameraSource, CameraSourceView};
use crate::capture::stereo::layout_of;

verus! {

/// The view of an optional source.
pub open spec fn optional_source(s: Option<CameraSource>) -> Option<CameraSourceView> {
    match s {
        Some(s) => Some(s@),
        None => None,
    }
}

fn same_source(a: &Option<CameraSource>, b: &Option<CameraSource>) -> (r: bool)
    ensures
        r == (optional_source(*a) == optional_source(*b)),
{
    match (a, b) {
        (Some(a), Some(b)) => a.same(b),
        (None, None) => true,
        _ => false,
    }
}

/// The sources the eye tracker takes its frames from, one per eye.
///
/// The tracker opens its camera from these sources: both the same camera is a
/// side-by-side camera, a single one is duplicated to both eyes, and with none
/// no camera is opened (see [`crate::capture::stereo::layout_of`]).
pub struct SourcePair {
    left: Option<CameraSource>,
    right: Option<CameraSource>,
}

impl SourcePair {
    /// The source of the left eye.
    pub closed spec fn left_view(&self) -> Option<CameraSourceView> {
        optional_source(self.left)
    }

    /// The source of the right eye.
    pub closed spec fn right_view(&self) -> Option<CameraSourceView> {
        optional_source(self.right)
    }

    /// No sources: nothing to open.
    pub fn new() -> (r: SourcePair)
        ensures
            r.left_view() is None,
            r.right_view() is None,
    {
        SourcePair { left: None, right: None }
    }

    /// The source of the left eye.
    pub fn left(&self) -> (r: &Option<CameraSource>)
        ensures
            optional_source(*r) == self.left_view(),
    {
        &self.left
    }

    /// The source of the right eye.
    pub fn right(&self) -> (r: &Option<CameraSource>)
        ensures
            optional_source(*r) == self.right_view(),
    {
        &self.right
    }

    /// Sets the sources, and returns whether they changed: a camera opened from
    /// the former sources is then to be closed, and opened again from the new ones.
    pub fn set(&mut self, left: Option<CameraSource>, right: Option<CameraSource>) -> (changed: bool)
        ensures
            final(self).left_view() == optional_source(left),
            final(self).right_view() == optional_source(right),
            changed == !(old(self).left_view() == optional_source(left)
                && old(self).right_view() == optional_source(right)),
    {
        let changed = !(same_source(&self.left, &left) && same_source(&self.right, &right));
        self.left = left;
        self.right = right;
        changed
    }

    /// Whether a camera is to be opened: whether either eye has a source.
    pub fn wants_camera(&self) -> (r: bool)
        ensures
            r == (self.left_view() is Some || self.right_view() is Some),
            r == (layout_of(self.left_view(), self.right_view()) is Some),
    {
        self.left.is_some() || self.right.is_some()
    }
}

} // verus!
