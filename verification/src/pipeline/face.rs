use vstd::prelude::*;

use crate::calibration::face::{face_index, face_shape_at, face_shape_count, FaceShape};

verus! {

/// The weights that the first `n` model outputs give: output `i` is the
/// weight of the shape it stands for, in output order; an output that stands
/// for no shape is dropped.
pub open spec fn mapped_outputs(map: Seq<Option<FaceShape>>, outputs: Seq<u32>, n: nat) -> Seq<(FaceShape, u32)>
    decreases n,
{
    if n == 0 {
        seq![]
    } else {
        let rest = mapped_outputs(map, outputs, (n - 1) as nat);
        match map[n - 1] {
            Some(shape) => rest.push((shape, outputs[n - 1])),
            None => rest,
        }
    }
}

/// Maps the outputs of the face model to face shapes: output `i` is the shape
/// at position `i` in model order.
pub struct FacePipeline {
    output_map: Vec<Option<FaceShape>>,
}

impl FacePipeline {
    /// The shape that each model output stands for.
    pub closed spec fn outputs(&self) -> Seq<Option<FaceShape>> {
        self.output_map@
    }

    /// A pipeline whose model outputs are the face shapes in model order.
    pub fn new() -> (r: FacePipeline)
        ensures
            r.outputs().len() == face_shape_count(),
            forall|i: int| 0 <= i < face_shape_count() ==> #[trigger] r.outputs()[i] == Some(face_shape_at(i as nat)),
    {
        let n = FaceShape::count();
        let mut output_map: Vec<Option<FaceShape>> = Vec::new();
        for i in 0..n
            invariant
                n == face_shape_count(),
                output_map@.len() == i,
                forall|k: int| 0 <= k < i ==> #[trigger] output_map@[k] == Some(face_shape_at(k as nat)),
        {
            output_map.push(Some(FaceShape::from_index(i)));
        }
        FacePipeline { output_map }
    }

    /// The weights that the model's outputs give (`f32` bit patterns, in output
    /// order): each output that stands for a shape is that shape's weight.
    /// Outputs beyond the map, and map entries beyond the outputs, are ignored.
    pub fn map_outputs(&self, outputs: &[u32]) -> (r: Vec<(FaceShape, u32)>)
        ensures
            r@ == mapped_outputs(
                self.outputs(),
                outputs@,
                if outputs@.len() <= self.outputs().len() { outputs@.len() } else { self.outputs().len() },
            ),
    {
        let n = if outputs.len() <= self.output_map.len() { outputs.len() } else { self.output_map.len() };
        let mut r: Vec<(FaceShape, u32)> = Vec::new();
        for i in 0..n
            invariant
                n <= outputs@.len(),
                n <= self.output_map@.len(),
                r@ == mapped_outputs(self.output_map@, outputs@, i as nat),
        {
            if let Some(shape) = self.output_map[i] {
                r.push((shape, outputs[i]));
            }
        }
        r
    }

    /// The shape that model output `i` stands for, if any.
    pub fn output_shape(&self, i: usize) -> (r: Option<FaceShape>)
        ensures
            r == (if i < self.outputs().len() { self.outputs()[i as int] } else { None }),
    {
        if i < self.output_map.len() {
            self.output_map[i]
        } else {
            None
        }
    }
}

} // verus!
