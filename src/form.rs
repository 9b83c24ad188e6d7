use vstd::prelude::*;

use crate::backend::Backend;

verus! {

/// A vertex buffer with the layout of one element.
pub struct VertexBuffer<R: Backend> {
    pub vertices: R::Buffer,
    pub vertex_count: u32,
    pub array_stride: u64,
    pub attributes: Vec<R::Attribute>,
}

impl<R: Backend> VertexBuffer<R> {
    /// Wraps `vertices`, the upload of `vertex_data`: one vertex per element,
    /// and the element's size as the stride.
    pub fn new<T>(vertices: R::Buffer, vertex_data: &[T], attributes: Vec<R::Attribute>) -> (b:
        Self)
        requires
            vertex_data@.len() <= u32::MAX,
        ensures
            b.vertices == vertices,
            b.vertex_count == vertex_data@.len(),
            b.array_stride == vstd::layout::size_of::<T>(),
            b.attributes@ == attributes@,
    {
        let stride = core::mem::size_of::<T>();
        VertexBuffer {
            vertices,
            vertex_count: vertex_data.len() as u32,
            array_stride: stride as u64,
            attributes,
        }
    }
}

/// A vertex buffer drawn through an index buffer of 32-bit indices.
pub struct VertexIndexBuffer<R: Backend> {
    pub vertices: R::Buffer,
    pub indices: R::Buffer,
    pub index_count: u32,
    pub array_stride: u64,
    pub attributes: Vec<R::Attribute>,
}

impl<R: Backend> VertexIndexBuffer<R> {
    /// Wraps `vertices` and `indices`, the uploads of `vertex_data` and
    /// `index_data`: a draw covers every index, and the stride is the size of a
    /// vertex element.
    pub fn new<T>(
        vertices: R::Buffer,
        indices: R::Buffer,
        vertex_data: &[T],
        attributes: Vec<R::Attribute>,
        index_data: &[i32],
    ) -> (b: Self)
        requires
            index_data@.len() <= u32::MAX,
        ensures
            b.vertices == vertices,
            b.indices == indices,
            b.index_count == index_data@.len(),
            b.array_stride == vstd::layout::size_of::<T>(),
            b.attributes@ == attributes@,
    {
        let stride = core::mem::size_of::<T>();
        VertexIndexBuffer {
            vertices,
            indices,
            index_count: index_data.len() as u32,
            array_stride: stride as u64,
            attributes,
        }
    }
}

/// The geometry a draw pipeline pulls from: an implicit range of vertices, a
/// vertex buffer, or a vertex buffer with an index buffer.
pub enum Form<R: Backend> {
    SimpleRange { vertex_count: u32 },
    Vertices(VertexBuffer<R>),
    IndexedVertices(VertexIndexBuffer<R>),
}

impl<R: Backend> Form<R> {
    /// The stride and attributes of the one vertex buffer this form binds, if it
    /// binds one.
    pub open spec fn spec_vertex_layout(&self) -> Option<(u64, Seq<R::Attribute>)> {
        match self {
            Form::SimpleRange { .. } => None,
            Form::Vertices(b) => Some((b.array_stride, b.attributes@)),
            Form::IndexedVertices(b) => Some((b.array_stride, b.attributes@)),
        }
    }

    /// The vertex-buffer layout that a pipeline drawing this form declares: none
    /// for an implicit range, else the buffer's stride and attributes.
    pub fn vertex_layout(&self) -> (r: Option<(u64, &[R::Attribute])>)
        ensures
            r is None <==> self.spec_vertex_layout() is None,
            r matches Some((stride, attributes)) ==> self.spec_vertex_layout() == Some(
                (stride, attributes@),
            ),
    {
        match self {
            Form::SimpleRange { .. } => None,
            Form::Vertices(b) => Some((b.array_stride, b.attributes.as_slice())),
            Form::IndexedVertices(b) => Some((b.array_stride, b.attributes.as_slice())),
        }
    }
}

} // verus!
