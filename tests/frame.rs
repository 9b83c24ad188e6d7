use paintings::backend::Backend;
use paintings::frame::RenderCommand;
use paintings::layer::LoadOp;
use paintings::renderer::{Renderer, Size};

/// A device double: every GPU object is a plain value the test can compare.
struct Mock;

impl Backend for Mock {
    type Module = &'static str;
    type Buffer = Vec<u8>;
    type Attribute = (u32, u64);
    type Pipeline = u32;
    type Color = [f64; 4];
}

const RED: [f64; 4] = [1.0, 0.0, 0.0, 1.0];
const BLUE: [f64; 4] = [0.0, 0.0, 1.0, 1.0];

fn renderer() -> Renderer<Mock> {
    Renderer::new(Size { width: 800, height: 600 })
}

fn count(cmds: &[RenderCommand<[f64; 4]>], p: fn(&RenderCommand<[f64; 4]>) -> bool) -> usize {
    cmds.iter().filter(|c| p(c)).count()
}

#[test]
fn end_to_end_single_triangle() {
    let mut r = renderer();
    let shade = r.make_shade("pass-through");
    let form = r.make_form_simple_range(3);
    let sketch = r.make_sketch(shade, form, 11);
    let layer = r.make_layer(vec![sketch]);
    r.layer_mut(layer).set_clear_color(Some(RED));
    let cmds = r.render_layer(layer);
    assert_eq!(
        cmds,
        vec![
            RenderCommand::AcquireTexture,
            RenderCommand::BeginPass { load: LoadOp::Clear(RED) },
            RenderCommand::SetPipeline { sketch: 0 },
            RenderCommand::Draw { vertex_count: 3 },
            RenderCommand::EndPass,
            RenderCommand::Submit,
            RenderCommand::Present,
        ]
    );
    assert_eq!(count(&cmds, |c| matches!(c, RenderCommand::Submit)), 1);
    assert_eq!(r.sketch(sketch).pipeline, 11);
}

#[test]
fn draw_count_follows_form_variant() {
    let mut r = renderer();
    let shade = r.make_shade("shader");
    let range = r.make_form_simple_range(5);
    let verts: [[f32; 6]; 3] = [[0.0; 6]; 3];
    let buffered = r.make_form_vertices(vec![1, 2, 3], &verts, vec![(0, 0), (1, 12)]);
    let indices = [0, 1, 4, 1, 2, 4, 2, 3, 4];
    let indexed = r.make_form_indexed_vertices(vec![4], vec![5], &verts, vec![(0, 0)], &indices);
    let s0 = r.make_sketch(shade, range, 100);
    let s1 = r.make_sketch(shade, buffered, 101);
    let s2 = r.make_sketch(shade, indexed, 102);
    let layer = r.make_layer(vec![s0, s1, s2]);
    let cmds = r.render_layer(layer);
    assert_eq!(
        cmds,
        vec![
            RenderCommand::AcquireTexture,
            RenderCommand::BeginPass { load: LoadOp::Load },
            RenderCommand::SetPipeline { sketch: s0 },
            RenderCommand::Draw { vertex_count: 5 },
            RenderCommand::SetPipeline { sketch: s1 },
            RenderCommand::SetVertexBuffer { form: buffered },
            RenderCommand::Draw { vertex_count: 3 },
            RenderCommand::SetPipeline { sketch: s2 },
            RenderCommand::SetVertexBuffer { form: indexed },
            RenderCommand::SetIndexBuffer { form: indexed },
            RenderCommand::DrawIndexed { index_count: 9 },
            RenderCommand::EndPass,
            RenderCommand::Submit,
            RenderCommand::Present,
        ]
    );
}

#[test]
fn one_submission_and_one_present_for_many_sketches() {
    let mut r = renderer();
    let shade = r.make_shade("shader");
    let form = r.make_form_simple_range(3);
    let a = r.make_sketch(shade, form, 1);
    let b = r.make_sketch(shade, form, 2);
    let c = r.make_sketch(shade, form, 3);
    let layer = r.make_layer(vec![c, a, b, a]);
    let cmds = r.render_layer(layer);
    assert_eq!(count(&cmds, |c| matches!(c, RenderCommand::Submit)), 1);
    assert_eq!(count(&cmds, |c| matches!(c, RenderCommand::Present)), 1);
    assert_eq!(count(&cmds, |c| matches!(c, RenderCommand::BeginPass { .. })), 1);
    assert_eq!(count(&cmds, |c| matches!(c, RenderCommand::Draw { .. })), 4);
    let bound: Vec<usize> = cmds
        .iter()
        .filter_map(|c| match c {
            RenderCommand::SetPipeline { sketch } => Some(*sketch),
            _ => None,
        })
        .collect();
    assert_eq!(bound, vec![c, a, b, a]);
    assert_eq!(cmds[cmds.len() - 2], RenderCommand::Submit);
    assert_eq!(cmds[cmds.len() - 1], RenderCommand::Present);
}

#[test]
fn empty_layer_still_clears_submits_and_presents() {
    let mut r = renderer();
    let layer = r.make_layer(vec![]);
    r.layer_mut(layer).set_clear_color(Some(BLUE));
    let cmds = r.render_layer(layer);
    assert_eq!(
        cmds,
        vec![
            RenderCommand::AcquireTexture,
            RenderCommand::BeginPass { load: LoadOp::Clear(BLUE) },
            RenderCommand::EndPass,
            RenderCommand::Submit,
            RenderCommand::Present,
        ]
    );
}

#[test]
fn clear_color_is_applied_every_time_and_none_keeps_contents() {
    let mut r = renderer();
    let shade = r.make_shade("shader");
    let form = r.make_form_simple_range(3);
    let sketch = r.make_sketch(shade, form, 9);
    let base = r.make_layer(vec![sketch]);
    r.layer_mut(base).set_clear_color(Some(RED));
    let first = r.render_layer(base);
    let second = r.render_layer(base);
    assert_eq!(first, second);
    assert_eq!(first[1], RenderCommand::BeginPass { load: LoadOp::Clear(RED) });
    r.layer_mut(base).set_clear_color(None);
    let overlay = r.render_layer(base);
    assert_eq!(overlay[1], RenderCommand::BeginPass { load: LoadOp::Load });
    assert_eq!(
        count(&overlay, |c| matches!(c, RenderCommand::BeginPass { load: LoadOp::Clear(_) })),
        0
    );
}
