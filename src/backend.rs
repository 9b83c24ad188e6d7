use vstd::prelude::*;

verus! {

/// The types of the GPU objects that a `Renderer` owns.
///
/// The renderer never looks inside these values: it stores them, hands them back
/// by handle, and names them in the command lists it produces. A real device and
/// a recording test double are both backends.
pub trait Backend {
    /// A compiled shader module with a vertex and a fragment entry point.
    type Module;
    /// A GPU-resident buffer, uploaded once.
    type Buffer;
    /// One entry of a vertex attribute layout (format, slot and byte offset).
    type Attribute;
    /// A built render pipeline.
    type Pipeline;
    /// The color that a render pass may clear its target to.
    type Color: Copy;
}

} // verus!
