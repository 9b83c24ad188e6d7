use vstd::prelude::*;

use crate::backend::Backend;

verus! {

/// A built draw pipeline, and the handle of the form it draws.
///
/// The pipeline was built from one shader and from that form's vertex layout,
/// with fixed state: triangle list, counter-clockwise front faces, back faces
/// culled, filled polygons, opaque blending.
pub struct Sketch<R: Backend> {
    pub pipeline: R::Pipeline,
    pub form_idx: usize,
}

impl<R: Backend> Sketch<R> {
    /// Pairs a built pipeline with the form it pulls draw parameters from.
    pub fn new(pipeline: R::Pipeline, form_idx: usize) -> (s: Self)
        ensures
            s.pipeline == pipeline,
            s.form_idx == form_idx,
    {
        Sketch { pipeline, form_idx }
    }
}

} // verus!
