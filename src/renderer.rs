use vstd::prelude::*;

use crate::backend::Backend;
use crate::form::{Form, VertexBuffer, VertexIndexBuffer};
use crate::frame::{frame_commands, RenderCommand};
use crate::layer::Layer;
use crate::shade::Shade;
use crate::sketch::Sketch;

verus! {

/// The pixel size of the presentation surface.
#[derive(Clone, Copy, Debug, PartialEq, Eq, Structural)]
pub struct Size {
    pub width: u32,
    pub height: u32,
}

/// The resource registry: the surface size, and four append-only arenas of
/// shaders, forms, sketches and layers. A handle is an index into one arena; it
/// is issued once and keeps naming the same resource.
pub struct Renderer<R: Backend> {
    size: Size,
    shades: Vec<Shade<R>>,
    forms: Vec<Form<R>>,
    sketches: Vec<Sketch<R>>,
    layers: Vec<Layer<R>>,
}

impl<R: Backend> Renderer<R> {
    /// The size the surface is configured at.
    pub closed spec fn spec_size(&self) -> Size {
        self.size
    }

    /// The shader arena, indexed by handle.
    pub closed spec fn shades(&self) -> Seq<Shade<R>> {
        self.shades@
    }

    /// The form arena, indexed by handle.
    pub closed spec fn forms(&self) -> Seq<Form<R>> {
        self.forms@
    }

    /// The sketch arena, indexed by handle.
    pub closed spec fn sketches(&self) -> Seq<Sketch<R>> {
        self.sketches@
    }

    /// The layer arena, indexed by handle.
    pub closed spec fn layers(&self) -> Seq<Layer<R>> {
        self.layers@
    }

    /// Every handle of a draw list names an issued sketch.
    pub open spec fn draw_list_valid(&self, list: Seq<usize>) -> bool {
        forall|i: int| 0 <= i < list.len() ==> #[trigger] list[i] < self.sketches().len()
    }

    /// The registry's invariant: the surface has a positive size, and every
    /// handle stored in a sketch or a layer resolves.
    pub open spec fn wf(&self) -> bool {
        &&& self.spec_size().width > 0
        &&& self.spec_size().height > 0
        &&& forall|i: int|
            0 <= i < self.sketches().len() ==> (#[trigger] self.sketches()[i]).form_idx
                < self.forms().len()
        &&& forall|i: int|
            0 <= i < self.layers().len() ==> self.draw_list_valid(
                (#[trigger] self.layers()[i]).draw_list(),
            )
    }

    /// Each arena of `self` is a prefix of the same arena of `later`: every
    /// handle issued by `self` names the same resource in `later`.
    pub open spec fn extends(&self, later: Self) -> bool {
        &&& self.shades().is_prefix_of(later.shades())
        &&& self.forms().is_prefix_of(later.forms())
        &&& self.sketches().is_prefix_of(later.sketches())
        &&& self.layers().is_prefix_of(later.layers())
    }

    /// An empty registry for a surface of the given positive size.
    pub fn new(size: Size) -> (r: Self)
        requires
            size.width > 0,
            size.height > 0,
        ensures
            r.wf(),
            r.spec_size() == size,
            r.shades().len() == 0,
            r.forms().len() == 0,
            r.sketches().len() == 0,
            r.layers().len() == 0,
    {
        Renderer {
            size,
            shades: Vec::new(),
            forms: Vec::new(),
            sketches: Vec::new(),
            layers: Vec::new(),
        }
    }

    /// The size the surface is configured at.
    pub fn size(&self) -> (s: Size)
        ensures
            s == self.spec_size(),
    {
        self.size
    }

    /// Takes a new surface size. A size with a zero dimension (a minimized
    /// window) changes nothing; otherwise the size is stored and the result
    /// says that the surface must be configured anew.
    pub fn resize(&mut self, width: u32, height: u32) -> (reconfigure: bool)
        ensures
            reconfigure == (width > 0 && height > 0),
            reconfigure ==> final(self).spec_size() == (Size { width, height }),
            !reconfigure ==> *final(self) == *old(self),
            final(self).shades() == old(self).shades(),
            final(self).forms() == old(self).forms(),
            final(self).sketches() == old(self).sketches(),
            final(self).layers() == old(self).layers(),
            old(self).wf() ==> final(self).wf(),
    {
        if width > 0 && height > 0 {
            self.size = Size { width, height };
            true
        } else {
            false
        }
    }

    /// Registers a form that draws `vertex_count` implicit vertices.
    pub fn make_form_simple_range(&mut self, vertex_count: u32) -> (h: usize)
        ensures
            h == old(self).forms().len(),
            final(self).forms() == old(self).forms().push(Form::SimpleRange { vertex_count }),
            final(self).shades() == old(self).shades(),
            final(self).sketches() == old(self).sketches(),
            final(self).layers() == old(self).layers(),
            final(self).spec_size() == old(self).spec_size(),
            old(self).extends(*final(self)),
            old(self).wf() ==> final(self).wf(),
    {
        let h = self.forms.len();
        self.forms.push(Form::SimpleRange { vertex_count });
        proof {
            assert(old(self).forms().is_prefix_of(self.forms()));
        }
        h
    }

    /// Registers a form over `vertices`, the uploaded buffer of `vertex_data`.
    pub fn make_form_vertices<T>(
        &mut self,
        vertices: R::Buffer,
        vertex_data: &[T],
        attributes: Vec<R::Attribute>,
    ) -> (h: usize)
        requires
            vertex_data@.len() <= u32::MAX,
        ensures
            h == old(self).forms().len(),
            final(self).forms().len() == h + 1,
            final(self).forms().take(h as int) == old(self).forms(),
            final(self).forms()[h as int] matches Form::Vertices(b) && b.vertices == vertices
                && b.vertex_count == vertex_data@.len() && b.array_stride
                == vstd::layout::size_of::<T>() && b.attributes@ == attributes@,
            final(self).shades() == old(self).shades(),
            final(self).sketches() == old(self).sketches(),
            final(self).layers() == old(self).layers(),
            final(self).spec_size() == old(self).spec_size(),
            old(self).extends(*final(self)),
            old(self).wf() ==> final(self).wf(),
    {
        let h = self.forms.len();
        let b = VertexBuffer::new(vertices, vertex_data, attributes);
        self.forms.push(Form::Vertices(b));
        proof {
            assert(self.forms().take(h as int) =~= old(self).forms());
            assert(old(self).forms().is_prefix_of(self.forms()));
        }
        h
    }

    /// Registers a form over `vertices` and `indices`, the uploaded buffers of
    /// `vertex_data` and `index_data`.
    pub fn make_form_indexed_vertices<T>(
        &mut self,
        vertices: R::Buffer,
        indices: R::Buffer,
        vertex_data: &[T],
        attributes: Vec<R::Attribute>,
        index_data: &[i32],
    ) -> (h: usize)
        requires
            index_data@.len() <= u32::MAX,
        ensures
            h == old(self).forms().len(),
            final(self).forms().len() == h + 1,
            final(self).forms().take(h as int) == old(self).forms(),
            final(self).forms()[h as int] matches Form::IndexedVertices(b) && b.vertices
                == vertices && b.indices == indices && b.index_count == index_data@.len()
                && b.array_stride == vstd::layout::size_of::<T>() && b.attributes@
                == attributes@,
            final(self).shades() == old(self).shades(),
            final(self).sketches() == old(self).sketches(),
            final(self).layers() == old(self).layers(),
            final(self).spec_size() == old(self).spec_size(),
            old(self).extends(*final(self)),
            old(self).wf() ==> final(self).wf(),
    {
        let h = self.forms.len();
        let b = VertexIndexBuffer::new(vertices, indices, vertex_data, attributes, index_data);
        self.forms.push(Form::IndexedVertices(b));
        proof {
            assert(self.forms().take(h as int) =~= old(self).forms());
            assert(old(self).forms().is_prefix_of(self.forms()));
        }
        h
    }

    /// Registers a compiled shader module.
    pub fn make_shade(&mut self, shader: R::Module) -> (h: usize)
        ensures
            h == old(self).shades().len(),
            final(self).shades() == old(self).shades().push(Shade { shader }),
            final(self).forms() == old(self).forms(),
            final(self).sketches() == old(self).sketches(),
            final(self).layers() == old(self).layers(),
            final(self).spec_size() == old(self).spec_size(),
            old(self).extends(*final(self)),
            old(self).wf() ==> final(self).wf(),
    {
        let h = self.shades.len();
        self.shades.push(Shade::new(shader));
        proof {
            assert(old(self).shades().is_prefix_of(self.shades()));
        }
        h
    }

    /// Registers `pipeline`, built from shader `shade_idx` and the vertex layout
    /// of form `form_idx`, as a sketch that draws that form.
    pub fn make_sketch(&mut self, shade_idx: usize, form_idx: usize, pipeline: R::Pipeline) -> (h:
        usize)
        requires
            shade_idx < old(self).shades().len(),
            form_idx < old(self).forms().len(),
        ensures
            h == old(self).sketches().len(),
            final(self).sketches() == old(self).sketches().push(Sketch { pipeline, form_idx }),
            final(self).shades() == old(self).shades(),
            final(self).forms() == old(self).forms(),
            final(self).layers() == old(self).layers(),
            final(self).spec_size() == old(self).spec_size(),
            old(self).extends(*final(self)),
            old(self).wf() ==> final(self).wf(),
    {
        let h = self.sketches.len();
        self.sketches.push(Sketch::new(pipeline, form_idx));
        proof {
            assert(old(self).sketches().is_prefix_of(self.sketches()));
            if old(self).wf() {
                assert forall|i: int| 0 <= i < self.layers().len() implies self.draw_list_valid(
                    #[trigger] self.layers()[i].draw_list(),
                ) by {
                    assert(old(self).draw_list_valid(old(self).layers()[i].draw_list()));
                }
            }
        }
        h
    }

    /// Registers a layer that draws the sketches `sketches` in order, over the
    /// target's contents until a clear color is set.
    pub fn make_layer(&mut self, sketches: Vec<usize>) -> (h: usize)
        requires
            old(self).draw_list_valid(sketches@),
        ensures
            h == old(self).layers().len(),
            final(self).layers().len() == h + 1,
            final(self).layers().take(h as int) == old(self).layers(),
            final(self).layers()[h as int].draw_list() == sketches@,
            final(self).layers()[h as int].clear() is None,
            final(self).shades() == old(self).shades(),
            final(self).forms() == old(self).forms(),
            final(self).sketches() == old(self).sketches(),
            final(self).spec_size() == old(self).spec_size(),
            old(self).extends(*final(self)),
            old(self).wf() ==> final(self).wf(),
    {
        let h = self.layers.len();
        self.layers.push(Layer::new(sketches));
        proof {
            assert(self.layers().take(h as int) =~= old(self).layers());
            assert(old(self).layers().is_prefix_of(self.layers()));
        }
        h
    }

    /// The shade that handle `idx` names. A handle that was never issued is a
    /// caller's error, excluded by the precondition.
    pub fn shade(&self, idx: usize) -> (r: &Shade<R>)
        requires
            idx < self.shades().len(),
        ensures
            *r == self.shades()[idx as int],
    {
        &self.shades[idx]
    }

    /// The form that handle `idx` names. A handle that was never issued is a
    /// caller's error, excluded by the precondition.
    pub fn form(&self, idx: usize) -> (r: &Form<R>)
        requires
            idx < self.forms().len(),
        ensures
            *r == self.forms()[idx as int],
    {
        &self.forms[idx]
    }

    /// The sketch that handle `idx` names. A handle that was never issued is a
    /// caller's error, excluded by the precondition.
    pub fn sketch(&self, idx: usize) -> (r: &Sketch<R>)
        requires
            idx < self.sketches().len(),
        ensures
            *r == self.sketches()[idx as int],
    {
        &self.sketches[idx]
    }

    /// The layer that handle `idx` names. A handle that was never issued is a
    /// caller's error, excluded by the precondition.
    pub fn layer(&self, idx: usize) -> (r: &Layer<R>)
        requires
            idx < self.layers().len(),
        ensures
            *r == self.layers()[idx as int],
    {
        &self.layers[idx]
    }

    /// Mutable access to the shade that handle `idx` names; what the caller
    /// leaves there replaces it, and nothing else changes.
    pub fn shade_mut(&mut self, idx: usize) -> (r: &mut Shade<R>)
        requires
            idx < old(self).shades().len(),
        ensures
            *r == old(self).shades()[idx as int],
            final(self).shades() == old(self).shades().update(idx as int, *final(r)),
            final(self).forms() == old(self).forms(),
            final(self).sketches() == old(self).sketches(),
            final(self).layers() == old(self).layers(),
            final(self).spec_size() == old(self).spec_size(),
    {
        &mut self.shades[idx]
    }

    /// Mutable access to the form that handle `idx` names; what the caller
    /// leaves there replaces it, and nothing else changes.
    pub fn form_mut(&mut self, idx: usize) -> (r: &mut Form<R>)
        requires
            idx < old(self).forms().len(),
        ensures
            *r == old(self).forms()[idx as int],
            final(self).forms() == old(self).forms().update(idx as int, *final(r)),
            final(self).shades() == old(self).shades(),
            final(self).sketches() == old(self).sketches(),
            final(self).layers() == old(self).layers(),
            final(self).spec_size() == old(self).spec_size(),
    {
        &mut self.forms[idx]
    }

    /// Mutable access to the sketch that handle `idx` names; what the caller
    /// leaves there replaces it, and nothing else changes.
    pub fn sketch_mut(&mut self, idx: usize) -> (r: &mut Sketch<R>)
        requires
            idx < old(self).sketches().len(),
        ensures
            *r == old(self).sketches()[idx as int],
            final(self).sketches() == old(self).sketches().update(idx as int, *final(r)),
            final(self).shades() == old(self).shades(),
            final(self).forms() == old(self).forms(),
            final(self).layers() == old(self).layers(),
            final(self).spec_size() == old(self).spec_size(),
    {
        &mut self.sketches[idx]
    }

    /// Mutable access to the layer that handle `idx` names; what the caller
    /// leaves there replaces it, and nothing else changes.
    pub fn layer_mut(&mut self, idx: usize) -> (r: &mut Layer<R>)
        requires
            idx < old(self).layers().len(),
        ensures
            *r == old(self).layers()[idx as int],
            final(self).layers() == old(self).layers().update(idx as int, *final(r)),
            final(self).shades() == old(self).shades(),
            final(self).forms() == old(self).forms(),
            final(self).sketches() == old(self).sketches(),
            final(self).spec_size() == old(self).spec_size(),
    {
        &mut self.layers[idx]
    }

    /// How many shades have been registered: the valid handles are below it.
    pub fn shade_count(&self) -> (n: usize)
        ensures
            n == self.shades().len(),
    {
        self.shades.len()
    }

    /// How many forms have been registered: the valid handles are below it.
    pub fn form_count(&self) -> (n: usize)
        ensures
            n == self.forms().len(),
    {
        self.forms.len()
    }

    /// How many sketches have been registered: the valid handles are below it.
    pub fn sketch_count(&self) -> (n: usize)
        ensures
            n == self.sketches().len(),
    {
        self.sketches.len()
    }

    /// How many layers have been registered: the valid handles are below it.
    pub fn layer_count(&self) -> (n: usize)
        ensures
            n == self.layers().len(),
    {
        self.layers.len()
    }

    /// Renders layer `idx`: the frame of that layer, with every sketch and form
    /// resolved through this registry.
    pub fn render_layer(&self, idx: usize) -> (cmds: Vec<RenderCommand<R::Color>>)
        requires
            self.wf(),
            idx < self.layers().len(),
        ensures
            cmds@ == frame_commands(*self, self.layers()[idx as int]),
    {
        let layer = self.layer(idx);
        layer.render(self)
    }
}

/// Registrations compose: a registry grown out of one that grew out of a third
/// has grown out of the third.
pub proof fn lemma_extends_transitive<R: Backend>(
    first: Renderer<R>,
    second: Renderer<R>,
    third: Renderer<R>,
)
    requires
        first.extends(second),
        second.extends(third),
    ensures
        first.extends(third),
{
}

/// Handles are stable: once a registry has grown out of an earlier one (by any
/// sequence of `make_*` calls, each of which ensures `old.extends(new)`), each
/// handle the earlier one issued still resolves, to the same resource, in
/// every arena.
pub proof fn lemma_handles_stable<R: Backend>(earlier: Renderer<R>, later: Renderer<R>)
    requires
        earlier.extends(later),
    ensures
        forall|h: int|
            0 <= h < earlier.shades().len() ==> h < later.shades().len() && #[trigger] later.shades()[h]
                == earlier.shades()[h],
        forall|h: int|
            0 <= h < earlier.forms().len() ==> h < later.forms().len() && #[trigger] later.forms()[h]
                == earlier.forms()[h],
        forall|h: int|
            0 <= h < earlier.sketches().len() ==> h < later.sketches().len()
                && #[trigger] later.sketches()[h] == earlier.sketches()[h],
        forall|h: int|
            0 <= h < earlier.layers().len() ==> h < later.layers().len() && #[trigger] later.layers()[h]
                == earlier.layers()[h],
{
}

} // verus!
