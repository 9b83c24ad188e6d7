use vstd::prelude::*;

use crate::backend::Backend;
use crate::form::Form;
use crate::layer::{load_op_of, Layer, LoadOp};
use crate::renderer::Renderer;

verus! {

/// One step of the frame render protocol, as a device executes it. Resources
/// are named by their registry handles.
#[derive(Clone, Copy, Debug, PartialEq)]
pub enum RenderCommand<C> {
    /// Acquire the next presentable surface image and a view over it.
    AcquireTexture,
    /// Open the frame's command encoder and begin the render pass on the view.
    BeginPass { load: LoadOp<C> },
    /// Bind the pipeline of a sketch.
    SetPipeline { sketch: usize },
    /// Bind the vertex buffer of a form to slot 0.
    SetVertexBuffer { form: usize },
    /// Bind the 32-bit index buffer of a form.
    SetIndexBuffer { form: usize },
    /// Draw vertices `0..vertex_count` of one instance.
    Draw { vertex_count: u32 },
    /// Draw indices `0..index_count` of one instance, base vertex 0.
    DrawIndexed { index_count: u32 },
    /// End the render pass.
    EndPass,
    /// Finish the encoder and submit its one command buffer to the queue.
    Submit,
    /// Present the acquired image.
    Present,
}

/// The commands that draw one form once its sketch's pipeline is bound: no
/// binding for an implicit range, the vertex buffer for a vertex form, both
/// buffers and an indexed draw for an indexed form.
pub open spec fn form_commands<R: Backend>(form: Form<R>, form_idx: usize) -> Seq<
    RenderCommand<R::Color>,
> {
    match form {
        Form::SimpleRange { vertex_count } => seq![RenderCommand::Draw { vertex_count }],
        Form::Vertices(b) => seq![
            RenderCommand::SetVertexBuffer { form: form_idx },
            RenderCommand::Draw { vertex_count: b.vertex_count },
        ],
        Form::IndexedVertices(b) => seq![
            RenderCommand::SetVertexBuffer { form: form_idx },
            RenderCommand::SetIndexBuffer { form: form_idx },
            RenderCommand::DrawIndexed { index_count: b.index_count },
        ],
    }
}

/// The commands that draw sketch `s`: bind its pipeline, then draw its form.
pub open spec fn sketch_commands<R: Backend>(r: Renderer<R>, s: usize) -> Seq<
    RenderCommand<R::Color>,
> {
    let f = r.sketches()[s as int].form_idx;
    seq![RenderCommand::SetPipeline { sketch: s }] + form_commands(r.forms()[f as int], f)
}

/// The commands that draw the sketches of `list`, in list order.
pub open spec fn draw_commands<R: Backend>(r: Renderer<R>, list: Seq<usize>) -> Seq<
    RenderCommand<R::Color>,
>
    decreases list.len(),
{
    if list.len() == 0 {
        seq![]
    } else {
        draw_commands(r, list.drop_last()) + sketch_commands(r, list.last())
    }
}

/// The whole frame for `layer`: acquire, one pass that starts by the layer's
/// load operation and draws its sketches in order, then one submission and one
/// present.
pub open spec fn frame_commands<R: Backend>(r: Renderer<R>, layer: Layer<R>) -> Seq<
    RenderCommand<R::Color>,
> {
    seq![
        RenderCommand::AcquireTexture,
        RenderCommand::BeginPass { load: load_op_of(layer.clear()) },
    ] + draw_commands(r, layer.draw_list()) + seq![
        RenderCommand::EndPass,
        RenderCommand::Submit,
        RenderCommand::Present,
    ]
}

/// The sum of `weight` over `cmds`.
pub open spec fn total<C>(cmds: Seq<RenderCommand<C>>, weight: spec_fn(RenderCommand<C>) -> nat) -> nat
    decreases cmds.len(),
{
    if cmds.len() == 0 {
        0
    } else {
        total(cmds.drop_last(), weight) + weight(cmds.last())
    }
}

/// How many commands of `cmds` satisfy `p`.
pub open spec fn count_where<C>(cmds: Seq<RenderCommand<C>>, p: spec_fn(RenderCommand<C>) -> bool) -> nat {
    total(cmds, |c: RenderCommand<C>| if p(c) { 1nat } else { 0nat })
}

/// Whether a command issues a draw, indexed or not.
pub open spec fn is_draw<C>(c: RenderCommand<C>) -> bool {
    c is Draw || c is DrawIndexed
}

/// The number of vertices that the non-indexed draws of `cmds` issue.
pub open spec fn vertices_drawn<C>(cmds: Seq<RenderCommand<C>>) -> nat {
    total(
        cmds,
        |c: RenderCommand<C>|
            match c {
                RenderCommand::Draw { vertex_count } => vertex_count as nat,
                _ => 0nat,
            },
    )
}

/// The number of indices that the indexed draws of `cmds` issue.
pub open spec fn indices_drawn<C>(cmds: Seq<RenderCommand<C>>) -> nat {
    total(
        cmds,
        |c: RenderCommand<C>|
            match c {
                RenderCommand::DrawIndexed { index_count } => index_count as nat,
                _ => 0nat,
            },
    )
}

/// The sketch handles whose pipelines `cmds` binds, in the order it binds them.
pub open spec fn pipelines_bound<C>(cmds: Seq<RenderCommand<C>>) -> Seq<usize>
    decreases cmds.len(),
{
    if cmds.len() == 0 {
        seq![]
    } else {
        let rest = pipelines_bound(cmds.drop_last());
        match cmds.last() {
            RenderCommand::SetPipeline { sketch } => rest.push(sketch),
            _ => rest,
        }
    }
}

proof fn lemma_total_add<C>(
    a: Seq<RenderCommand<C>>,
    b: Seq<RenderCommand<C>>,
    weight: spec_fn(RenderCommand<C>) -> nat,
)
    ensures
        total(a + b, weight) == total(a, weight) + total(b, weight),
    decreases b.len(),
{
    if b.len() == 0 {
        assert(a + b =~= a);
    } else {
        assert((a + b).drop_last() =~= a + b.drop_last());
        assert((a + b).last() == b.last());
        lemma_total_add(a, b.drop_last(), weight);
    }
}

proof fn lemma_pipelines_add<C>(a: Seq<RenderCommand<C>>, b: Seq<RenderCommand<C>>)
    ensures
        pipelines_bound(a + b) == pipelines_bound(a) + pipelines_bound(b),
    decreases b.len(),
{
    if b.len() == 0 {
        assert(a + b =~= a);
        assert(pipelines_bound(a) + pipelines_bound(b) =~= pipelines_bound(a));
    } else {
        assert((a + b).drop_last() =~= a + b.drop_last());
        assert((a + b).last() == b.last());
        lemma_pipelines_add(a, b.drop_last());
        match b.last() {
            RenderCommand::SetPipeline { sketch } => {
                assert(pipelines_bound(a) + pipelines_bound(b) =~= (pipelines_bound(a)
                    + pipelines_bound(b.drop_last())).push(sketch));
            },
            _ => {},
        }
    }
}

proof fn lemma_total_one<C>(x: RenderCommand<C>, weight: spec_fn(RenderCommand<C>) -> nat)
    ensures
        total(seq![x], weight) == weight(x),
{
    reveal_with_fuel(total, 2);
    assert(seq![x].drop_last() =~= Seq::<RenderCommand<C>>::empty());
}

proof fn lemma_total_two<C>(
    x: RenderCommand<C>,
    y: RenderCommand<C>,
    weight: spec_fn(RenderCommand<C>) -> nat,
)
    ensures
        total(seq![x, y], weight) == weight(x) + weight(y),
{
    assert(seq![x, y] =~= seq![x] + seq![y]);
    lemma_total_add(seq![x], seq![y], weight);
    lemma_total_one(x, weight);
    lemma_total_one(y, weight);
}

proof fn lemma_total_three<C>(
    x: RenderCommand<C>,
    y: RenderCommand<C>,
    z: RenderCommand<C>,
    weight: spec_fn(RenderCommand<C>) -> nat,
)
    ensures
        total(seq![x, y, z], weight) == weight(x) + weight(y) + weight(z),
{
    assert(seq![x, y, z] =~= seq![x, y] + seq![z]);
    lemma_total_add(seq![x, y], seq![z], weight);
    lemma_total_two(x, y, weight);
    lemma_total_one(z, weight);
}

/// The total of `weight` over the commands that draw one form, spelled out.
proof fn lemma_total_form<R: Backend>(
    form: Form<R>,
    f: usize,
    weight: spec_fn(RenderCommand<R::Color>) -> nat,
)
    ensures
        total(form_commands(form, f), weight) == match form {
            Form::SimpleRange { vertex_count } => weight(RenderCommand::Draw { vertex_count }),
            Form::Vertices(b) => weight(RenderCommand::SetVertexBuffer { form: f }) + weight(
                RenderCommand::Draw { vertex_count: b.vertex_count },
            ),
            Form::IndexedVertices(b) => weight(RenderCommand::SetVertexBuffer { form: f })
                + weight(RenderCommand::SetIndexBuffer { form: f }) + weight(
                RenderCommand::DrawIndexed { index_count: b.index_count },
            ),
        },
{
    match form {
        Form::SimpleRange { vertex_count } => {
            lemma_total_one(RenderCommand::Draw { vertex_count }, weight);
        },
        Form::Vertices(b) => {
            lemma_total_two(
                RenderCommand::SetVertexBuffer { form: f },
                RenderCommand::Draw { vertex_count: b.vertex_count },
                weight,
            );
        },
        Form::IndexedVertices(b) => {
            lemma_total_three(
                RenderCommand::SetVertexBuffer { form: f },
                RenderCommand::SetIndexBuffer { form: f },
                RenderCommand::DrawIndexed { index_count: b.index_count },
                weight,
            );
        },
    }
}

/// Each form issues exactly one draw: an implicit range draws its count of
/// vertices without indices, a vertex form draws its stored vertex count
/// without indices, and an indexed form issues one indexed draw of its stored
/// index count.
pub proof fn lemma_draw_count_by_form<R: Backend>(form: Form<R>, f: usize)
    ensures
        count_where(form_commands(form, f), |c: RenderCommand<R::Color>| is_draw(c)) == 1,
        match form {
            Form::SimpleRange { vertex_count } => vertices_drawn(form_commands(form, f))
                == vertex_count && indices_drawn(form_commands(form, f)) == 0,
            Form::Vertices(b) => vertices_drawn(form_commands(form, f)) == b.vertex_count
                && indices_drawn(form_commands(form, f)) == 0,
            Form::IndexedVertices(b) => indices_drawn(form_commands(form, f)) == b.index_count
                && vertices_drawn(form_commands(form, f)) == 0,
        },
{
    let p = |c: RenderCommand<R::Color>| is_draw(c);
    lemma_total_form(form, f, |c: RenderCommand<R::Color>| if p(c) { 1nat } else { 0nat });
    lemma_total_form(
        form,
        f,
        |c: RenderCommand<R::Color>|
            match c {
                RenderCommand::Draw { vertex_count } => vertex_count as nat,
                _ => 0nat,
            },
    );
    lemma_total_form(
        form,
        f,
        |c: RenderCommand<R::Color>|
            match c {
                RenderCommand::DrawIndexed { index_count } => index_count as nat,
                _ => 0nat,
            },
    );
}

proof fn lemma_pipelines_form<R: Backend>(form: Form<R>, f: usize)
    ensures
        pipelines_bound(form_commands(form, f)) == Seq::<usize>::empty(),
{
    reveal_with_fuel(pipelines_bound, 4);
    let cmds = form_commands(form, f);
    match form {
        Form::SimpleRange { .. } => {
            assert(cmds.drop_last() =~= Seq::<RenderCommand<R::Color>>::empty());
        },
        Form::Vertices(b) => {
            assert(cmds.drop_last() =~= seq![RenderCommand::SetVertexBuffer { form: f }]);
            assert(cmds.drop_last().drop_last() =~= Seq::<RenderCommand<R::Color>>::empty());
        },
        Form::IndexedVertices(b) => {
            let two = seq![
                RenderCommand::SetVertexBuffer { form: f },
                RenderCommand::SetIndexBuffer { form: f },
            ];
            assert(cmds.drop_last() =~= two);
            assert(two.drop_last() =~= seq![RenderCommand::SetVertexBuffer { form: f }]);
            assert(two.drop_last().drop_last() =~= Seq::<RenderCommand<R::Color>>::empty());
        },
    }
}

/// The total of `weight` over the commands that draw sketch `s`: its pipeline
/// bind, then its form's commands.
proof fn lemma_total_sketch<R: Backend>(
    r: Renderer<R>,
    s: usize,
    weight: spec_fn(RenderCommand<R::Color>) -> nat,
)
    ensures
        total(sketch_commands(r, s), weight) == weight(RenderCommand::SetPipeline { sketch: s })
            + total(form_commands(r.forms()[r.sketches()[s as int].form_idx as int], r.sketches()[s as int].form_idx), weight),
{
    let f = r.sketches()[s as int].form_idx;
    lemma_total_add(seq![RenderCommand::SetPipeline { sketch: s }], form_commands(r.forms()[f as int], f), weight);
    lemma_total_one(RenderCommand::SetPipeline { sketch: s }, weight);
}

/// A predicate that holds of no command a sketch emits counts nothing among
/// the commands that draw a list of sketches.
proof fn lemma_draw_commands_none<R: Backend>(
    r: Renderer<R>,
    list: Seq<usize>,
    p: spec_fn(RenderCommand<R::Color>) -> bool,
)
    requires
        forall|c: RenderCommand<R::Color>|
            #[trigger] p(c) ==> !(c is SetPipeline || c is SetVertexBuffer || c is SetIndexBuffer
                || c is Draw || c is DrawIndexed),
    ensures
        count_where(draw_commands(r, list), p) == 0,
    decreases list.len(),
{
    let w = |c: RenderCommand<R::Color>| if p(c) { 1nat } else { 0nat };
    if list.len() > 0 {
        let s = list.last();
        let f = r.sketches()[s as int].form_idx;
        lemma_draw_commands_none(r, list.drop_last(), p);
        lemma_total_add(draw_commands(r, list.drop_last()), sketch_commands(r, s), w);
        lemma_total_sketch(r, s, w);
        lemma_total_form(r.forms()[f as int], f, w);
    }
}

/// The commands that draw a list of sketches bind one pipeline and issue one
/// draw per sketch, and bind the pipelines in list order.
proof fn lemma_draw_commands_shape<R: Backend>(r: Renderer<R>, list: Seq<usize>)
    ensures
        count_where(draw_commands(r, list), |c: RenderCommand<R::Color>| c is SetPipeline)
            == list.len(),
        count_where(draw_commands(r, list), |c: RenderCommand<R::Color>| is_draw(c))
            == list.len(),
        pipelines_bound(draw_commands(r, list)) == list,
    decreases list.len(),
{
    if list.len() == 0 {
        assert(pipelines_bound(draw_commands(r, list)) =~= list);
    } else {
        let s = list.last();
        let f = r.sketches()[s as int].form_idx;
        let rest = draw_commands(r, list.drop_last());
        lemma_draw_commands_shape(r, list.drop_last());
        let binds = |c: RenderCommand<R::Color>| c is SetPipeline;
        let bind_weight = |c: RenderCommand<R::Color>| if binds(c) { 1nat } else { 0nat };
        lemma_total_add(rest, sketch_commands(r, s), bind_weight);
        lemma_total_sketch(r, s, bind_weight);
        lemma_total_form(r.forms()[f as int], f, bind_weight);
        let draws = |c: RenderCommand<R::Color>| is_draw(c);
        let draw_weight = |c: RenderCommand<R::Color>| if draws(c) { 1nat } else { 0nat };
        lemma_total_add(rest, sketch_commands(r, s), draw_weight);
        lemma_total_sketch(r, s, draw_weight);
        lemma_total_form(r.forms()[f as int], f, draw_weight);
        let head = seq![RenderCommand::<R::Color>::SetPipeline { sketch: s }];
        lemma_pipelines_add(rest, sketch_commands(r, s));
        lemma_pipelines_add(head, form_commands(r.forms()[f as int], f));
        lemma_pipelines_form(r.forms()[f as int], f);
        reveal_with_fuel(pipelines_bound, 2);
        assert(head.drop_last() =~= Seq::<RenderCommand<R::Color>>::empty());
        assert(pipelines_bound(head) =~= seq![s]);
        assert(list.drop_last().push(s) =~= list);
        assert(pipelines_bound(draw_commands(r, list)) =~= list);
    }
}

/// How many commands of a layer's frame satisfy `p`: those of the fixed
/// frame steps, and those among the sketches' commands.
proof fn lemma_frame_count<R: Backend>(
    r: Renderer<R>,
    layer: Layer<R>,
    p: spec_fn(RenderCommand<R::Color>) -> bool,
)
    ensures
        count_where(frame_commands(r, layer), p) == (if p(RenderCommand::AcquireTexture) {
            1nat
        } else {
            0nat
        }) + (if p(RenderCommand::BeginPass { load: load_op_of(layer.clear()) }) {
            1nat
        } else {
            0nat
        }) + count_where(draw_commands(r, layer.draw_list()), p) + (if p(
            RenderCommand::EndPass,
        ) {
            1nat
        } else {
            0nat
        }) + (if p(RenderCommand::Submit) {
            1nat
        } else {
            0nat
        }) + (if p(RenderCommand::Present) {
            1nat
        } else {
            0nat
        }),
{
    let w = |c: RenderCommand<R::Color>| if p(c) { 1nat } else { 0nat };
    let head = seq![
        RenderCommand::AcquireTexture,
        RenderCommand::BeginPass { load: load_op_of(layer.clear()) },
    ];
    let body = draw_commands(r, layer.draw_list());
    let tail = seq![RenderCommand::EndPass, RenderCommand::Submit, RenderCommand::Present];
    lemma_total_add(head + body, tail, w);
    lemma_total_add(head, body, w);
    lemma_total_two(head[0], head[1], w);
    lemma_total_three(tail[0], tail[1], tail[2], w);
}

/// Rendering a layer of K sketches is one frame: it acquires one image, opens
/// one render pass, submits one command buffer and presents once, in that
/// order; inside the pass it binds the K sketches' pipelines in list order and
/// issues K draws.
pub proof fn lemma_submission_cardinality<R: Backend>(r: Renderer<R>, layer: Layer<R>)
    ensures
        ({
            let cmds = frame_commands(r, layer);
            let k = layer.draw_list().len();
            &&& count_where(cmds, |c: RenderCommand<R::Color>| c is AcquireTexture) == 1
            &&& count_where(cmds, |c: RenderCommand<R::Color>| c is BeginPass) == 1
            &&& count_where(cmds, |c: RenderCommand<R::Color>| c is EndPass) == 1
            &&& count_where(cmds, |c: RenderCommand<R::Color>| c is Submit) == 1
            &&& count_where(cmds, |c: RenderCommand<R::Color>| c is Present) == 1
            &&& count_where(cmds, |c: RenderCommand<R::Color>| c is SetPipeline) == k
            &&& count_where(cmds, |c: RenderCommand<R::Color>| is_draw(c)) == k
            &&& pipelines_bound(cmds) == layer.draw_list()
            &&& cmds.len() >= 5
            &&& cmds[0] is AcquireTexture
            &&& cmds[1] is BeginPass
            &&& cmds[cmds.len() - 3] is EndPass
            &&& cmds[cmds.len() - 2] is Submit
            &&& cmds[cmds.len() - 1] is Present
        }),
{
    let list = layer.draw_list();
    let cmds = frame_commands(r, layer);
    lemma_frame_count(r, layer, |c: RenderCommand<R::Color>| c is AcquireTexture);
    lemma_draw_commands_none(r, list, |c: RenderCommand<R::Color>| c is AcquireTexture);
    lemma_frame_count(r, layer, |c: RenderCommand<R::Color>| c is BeginPass);
    lemma_draw_commands_none(r, list, |c: RenderCommand<R::Color>| c is BeginPass);
    lemma_frame_count(r, layer, |c: RenderCommand<R::Color>| c is EndPass);
    lemma_draw_commands_none(r, list, |c: RenderCommand<R::Color>| c is EndPass);
    lemma_frame_count(r, layer, |c: RenderCommand<R::Color>| c is Submit);
    lemma_draw_commands_none(r, list, |c: RenderCommand<R::Color>| c is Submit);
    lemma_frame_count(r, layer, |c: RenderCommand<R::Color>| c is Present);
    lemma_draw_commands_none(r, list, |c: RenderCommand<R::Color>| c is Present);
    lemma_frame_count(r, layer, |c: RenderCommand<R::Color>| c is SetPipeline);
    lemma_frame_count(r, layer, |c: RenderCommand<R::Color>| is_draw(c));
    lemma_draw_commands_shape(r, list);
    let head = seq![
        RenderCommand::AcquireTexture,
        RenderCommand::BeginPass { load: load_op_of(layer.clear()) },
    ];
    let body = draw_commands(r, list);
    let tail = seq![RenderCommand::EndPass, RenderCommand::Submit, RenderCommand::Present];
    lemma_pipelines_add(head + body, tail);
    lemma_pipelines_add(head, body);
    reveal_with_fuel(pipelines_bound, 4);
    assert(head.drop_last().drop_last() =~= Seq::<RenderCommand<R::Color>>::empty());
    assert(head.drop_last() =~= seq![RenderCommand::<R::Color>::AcquireTexture]);
    assert(pipelines_bound(head) =~= Seq::<usize>::empty());
    assert(tail.drop_last() =~= seq![RenderCommand::<R::Color>::EndPass, RenderCommand::Submit]);
    assert(tail.drop_last().drop_last() =~= seq![RenderCommand::<R::Color>::EndPass]);
    assert(tail.drop_last().drop_last().drop_last() =~= Seq::<RenderCommand<R::Color>>::empty());
    assert(pipelines_bound(tail) =~= Seq::<usize>::empty());
    assert(pipelines_bound(cmds) =~= list);
}

/// Whether a command clears the target to a solid color.
pub open spec fn clears<C>(c: RenderCommand<C>) -> bool {
    c matches RenderCommand::BeginPass { load } && load is Clear
}

/// A layer's frame starts its one pass by clearing to the layer's color when
/// it has one, and by keeping the target's contents when it has none; no other
/// command of the frame clears. How the pass starts depends on the clear color
/// alone: rendered again, by any registry and after anything drawn before, a
/// layer with the same clear color starts its pass the same way.
pub proof fn lemma_clear_vs_load<R: Backend>(
    r: Renderer<R>,
    layer: Layer<R>,
    again: Renderer<R>,
    same: Layer<R>,
)
    requires
        same.clear() == layer.clear(),
    ensures
        frame_commands(r, layer)[1] == (RenderCommand::BeginPass {
            load: load_op_of(layer.clear()),
        }),
        layer.clear() matches Some(c) ==> frame_commands(r, layer)[1] == (RenderCommand::BeginPass {
            load: LoadOp::Clear(c),
        }),
        layer.clear() is None ==> frame_commands(r, layer)[1] == (RenderCommand::BeginPass {
            load: LoadOp::<R::Color>::Load,
        }),
        count_where(frame_commands(r, layer), |c: RenderCommand<R::Color>| clears(c)) == if layer.clear() is Some {
            1nat
        } else {
            0nat
        },
        frame_commands(again, same)[1] == frame_commands(r, layer)[1],
{
    let p = |c: RenderCommand<R::Color>| clears(c);
    lemma_frame_count(r, layer, p);
    lemma_draw_commands_none(r, layer.draw_list(), p);
}

} // verus!
