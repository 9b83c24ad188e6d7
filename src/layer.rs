use vstd::prelude::*;

use crate::backend::Backend;
use crate::form::Form;
use crate::frame::{draw_commands, frame_commands, RenderCommand};
use crate::renderer::Renderer;

verus! {

/// How a render pass starts: by clearing its target to a color, or by keeping
/// what the target already holds.
#[derive(Clone, Copy, Debug, PartialEq)]
pub enum LoadOp<C> {
    Clear(C),
    Load,
}

/// The load operation that a clear-color policy calls for.
pub open spec fn load_op_of<C>(clear_color: Option<C>) -> LoadOp<C> {
    match clear_color {
        Some(c) => LoadOp::Clear(c),
        None => LoadOp::Load,
    }
}

/// An ordered list of sketch handles, drawn in one render pass, and the
/// pass's clear-color policy (`None`: keep the target's contents).
pub struct Layer<R: Backend> {
    clear_color: Option<R::Color>,
    sketch_indices: Vec<usize>,
}

impl<R: Backend> Layer<R> {
    /// The color the layer's pass clears to, if any.
    pub closed spec fn clear(&self) -> Option<R::Color> {
        self.clear_color
    }

    /// The sketch handles the layer draws, in order.
    pub closed spec fn draw_list(&self) -> Seq<usize> {
        self.sketch_indices@
    }

    /// A layer that draws `sketch_indices` in order over the target's contents.
    pub fn new(sketch_indices: Vec<usize>) -> (l: Self)
        ensures
            l.clear() is None,
            l.draw_list() == sketch_indices@,
    {
        Layer { clear_color: None, sketch_indices }
    }

    /// The same layer with its clear-color policy replaced.
    pub fn with_clear_color(self, clear_color: Option<R::Color>) -> (l: Self)
        ensures
            l.clear() == clear_color,
            l.draw_list() == self.draw_list(),
    {
        let mut l = self;
        l.clear_color = clear_color;
        l
    }

    /// Replaces the clear-color policy; the draw list stays.
    pub fn set_clear_color(&mut self, clear_color: Option<R::Color>) -> (l: &Self)
        ensures
            final(self).clear() == clear_color,
            final(self).draw_list() == old(self).draw_list(),
            *l == *final(self),
    {
        self.clear_color = clear_color;
        self
    }

    /// The color the layer's pass clears to, if any.
    pub fn clear_color(&self) -> (c: Option<R::Color>)
        ensures
            c == self.clear(),
    {
        self.clear_color
    }

    /// The sketch handles the layer draws, in order.
    pub fn sketch_indices(&self) -> (s: &[usize])
        ensures
            s@ == self.draw_list(),
    {
        self.sketch_indices.as_slice()
    }

    /// The load operation this layer's pass begins with.
    pub fn load_op(&self) -> (op: LoadOp<R::Color>)
        ensures
            op == load_op_of(self.clear()),
    {
        match self.clear_color {
            Some(c) => LoadOp::Clear(c),
            None => LoadOp::Load,
        }
    }

    /// The frame that renders this layer: acquire the surface image, begin one
    /// pass with the layer's load operation, bind and draw each sketch in list
    /// order, end the pass, submit once and present once.
    pub fn render(&self, renderer: &Renderer<R>) -> (cmds: Vec<RenderCommand<R::Color>>)
        requires
            renderer.wf(),
            renderer.draw_list_valid(self.draw_list()),
        ensures
            cmds@ == frame_commands(*renderer, *self),
    {
        let mut cmds: Vec<RenderCommand<R::Color>> = Vec::new();
        cmds.push(RenderCommand::AcquireTexture);
        cmds.push(RenderCommand::BeginPass { load: self.load_op() });
        let ghost head = cmds@;
        let ghost list = self.draw_list();
        let mut i: usize = 0;
        while i < self.sketch_indices.len()
            invariant
                renderer.wf(),
                renderer.draw_list_valid(list),
                list == self.sketch_indices@,
                i <= list.len(),
                cmds@ == head + draw_commands(*renderer, list.take(i as int)),
            decreases list.len() - i,
        {
            let s = self.sketch_indices[i];
            let sketch = renderer.sketch(s);
            let f = sketch.form_idx;
            cmds.push(RenderCommand::SetPipeline { sketch: s });
            match renderer.form(f) {
                Form::SimpleRange { vertex_count } => {
                    cmds.push(RenderCommand::Draw { vertex_count: *vertex_count });
                },
                Form::Vertices(b) => {
                    cmds.push(RenderCommand::SetVertexBuffer { form: f });
                    cmds.push(RenderCommand::Draw { vertex_count: b.vertex_count });
                },
                Form::IndexedVertices(b) => {
                    cmds.push(RenderCommand::SetVertexBuffer { form: f });
                    cmds.push(RenderCommand::SetIndexBuffer { form: f });
                    cmds.push(RenderCommand::DrawIndexed { index_count: b.index_count });
                },
            }
            proof {
                assert(list.take(i + 1).drop_last() =~= list.take(i as int));
                assert(list.take(i + 1).last() == s);
            }
            i = i + 1;
        }
        proof {
            assert(list.take(i as int) =~= list);
        }
        cmds.push(RenderCommand::EndPass);
        cmds.push(RenderCommand::Submit);
        cmds.push(RenderCommand::Present);
        proof {
            assert(cmds@ =~= frame_commands(*renderer, *self));
        }
        cmds
    }
}

} // verus!
