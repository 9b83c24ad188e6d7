use vstd::prelude::*;

use crate::backend::Backend;

verus! {

/// A compiled shader program. Its vertex and fragment stages are the entry
/// points `vs_main` and `fs_main`.
pub struct Shade<R: Backend> {
    pub shader: R::Module,
}

impl<R: Backend> Shade<R> {
    /// Wraps a compiled shader module.
    pub fn new(shader: R::Module) -> (s: Self)
        ensures
            s.shader == shader,
    {
        Shade { shader }
    }
}

} // verus!
