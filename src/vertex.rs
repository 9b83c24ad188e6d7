use vstd::prelude::*;

verus! {

/// One vertex record as handed to a vertex buffer: a position and a color,
/// each in whatever component type the caller's shader expects.
#[derive(Clone, Copy, Debug, PartialEq)]
pub struct Vertex<T> {
    pub position: T,
    pub color: T,
}

/// Builds a vertex from its position and color.
pub fn vertex<T>(position: T, color: T) -> (v: Vertex<T>)
    ensures
        v.position == position,
        v.color == color,
{
    Vertex { position, color }
}

} // verus!
