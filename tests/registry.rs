use paintings::backend::Backend;
use paintings::form::{Form, VertexBuffer, VertexIndexBuffer};
use paintings::layer::{Layer, LoadOp};
use paintings::renderer::{Renderer, Size};
use paintings::shade::Shade;
use paintings::sketch::Sketch;
use paintings::vertex::{vertex, Vertex};

struct Mock;

impl Backend for Mock {
    type Module = &'static str;
    type Buffer = Vec<u8>;
    type Attribute = (u32, u64);
    type Pipeline = u32;
    type Color = [f64; 4];
}

fn renderer() -> Renderer<Mock> {
    Renderer::new(Size { width: 800, height: 600 })
}

#[test]
fn handles_keep_naming_the_same_resource() {
    let mut r = renderer();
    let s0 = r.make_shade("first");
    let f0 = r.make_form_simple_range(3);
    assert_eq!(r.shade(s0).shader, "first");
    let k0 = r.make_sketch(s0, f0, 40);
    let l0 = r.make_layer(vec![k0]);
    let s1 = r.make_shade("second");
    let f1 = r.make_form_simple_range(6);
    let k1 = r.make_sketch(s1, f1, 41);
    let l1 = r.make_layer(vec![k1, k0]);
    assert_eq!((s0, s1), (0, 1));
    assert_eq!((f0, f1), (0, 1));
    assert_eq!((k0, k1), (0, 1));
    assert_eq!((l0, l1), (0, 1));
    assert_eq!(r.shade(s0).shader, "first");
    assert_eq!(r.shade(s1).shader, "second");
    assert!(matches!(r.form(f0), Form::SimpleRange { vertex_count: 3 }));
    assert!(matches!(r.form(f1), Form::SimpleRange { vertex_count: 6 }));
    assert_eq!((r.sketch(k0).pipeline, r.sketch(k0).form_idx), (40, f0));
    assert_eq!((r.sketch(k1).pipeline, r.sketch(k1).form_idx), (41, f1));
    assert_eq!(r.layer(l0).sketch_indices(), &[k0]);
    assert_eq!(r.layer(l1).sketch_indices(), &[k1, k0]);
}

#[test]
fn resize_with_a_zero_dimension_changes_nothing() {
    let mut r = renderer();
    assert!(!r.resize(0, 480));
    assert_eq!(r.size(), Size { width: 800, height: 600 });
    assert!(!r.resize(640, 0));
    assert_eq!(r.size(), Size { width: 800, height: 600 });
    assert!(!r.resize(0, 0));
    assert_eq!(r.size(), Size { width: 800, height: 600 });
    assert!(r.resize(1024, 768));
    assert_eq!(r.size(), Size { width: 1024, height: 768 });
}

#[test]
fn vertex_forms_count_elements_and_take_the_element_stride() {
    let data: Vec<Vertex<[f32; 3]>> = vec![
        vertex([0.0, 0.5, 0.0], [1.0, 0.0, 0.0]),
        vertex([-0.5, -0.5, 0.0], [0.0, 1.0, 0.0]),
        vertex([0.5, -0.5, 0.0], [0.0, 0.0, 1.0]),
    ];
    let b: VertexBuffer<Mock> = VertexBuffer::new(vec![7], &data, vec![(0, 0), (1, 12)]);
    assert_eq!(b.vertex_count, 3);
    assert_eq!(b.array_stride, 24);
    assert_eq!(b.attributes, vec![(0, 0), (1, 12)]);
    let ib: VertexIndexBuffer<Mock> =
        VertexIndexBuffer::new(vec![7], vec![8], &data, vec![(0, 0)], &[0, 1, 2, 2, 1]);
    assert_eq!(ib.index_count, 5);
    assert_eq!(ib.array_stride, 24);
    assert_eq!(ib.indices, vec![8]);
}

#[test]
fn vertex_layout_depends_on_the_variant() {
    let range: Form<Mock> = Form::SimpleRange { vertex_count: 3 };
    assert!(range.vertex_layout().is_none());
    let data = [[0u32; 4]; 2];
    let buffered: Form<Mock> = Form::Vertices(VertexBuffer::new(vec![], &data, vec![(0, 0)]));
    let (stride, attributes) = buffered.vertex_layout().unwrap();
    assert_eq!(stride, 16);
    assert_eq!(attributes, &[(0, 0)]);
    let indexed: Form<Mock> =
        Form::IndexedVertices(VertexIndexBuffer::new(vec![], vec![], &data, vec![(2, 4)], &[0]));
    let (stride, attributes) = indexed.vertex_layout().unwrap();
    assert_eq!(stride, 16);
    assert_eq!(attributes, &[(2, 4)]);
}

#[test]
fn layer_clear_color_policy() {
    let layer: Layer<Mock> = Layer::new(vec![2, 0]);
    assert_eq!(layer.clear_color(), None);
    assert_eq!(layer.load_op(), LoadOp::Load);
    let mut layer = layer.with_clear_color(Some([0.1, 0.2, 0.3, 1.0]));
    assert_eq!(layer.load_op(), LoadOp::Clear([0.1, 0.2, 0.3, 1.0]));
    assert_eq!(layer.sketch_indices(), &[2, 0]);
    let after = layer.set_clear_color(None);
    assert_eq!(after.clear_color(), None);
    assert_eq!(after.sketch_indices(), &[2, 0]);
}

#[test]
fn mutable_lookups_replace_one_resource() {
    let mut r = renderer();
    let s = r.make_shade("old");
    let f = r.make_form_simple_range(3);
    let k = r.make_sketch(s, f, 1);
    r.shade_mut(s).shader = "new";
    *r.form_mut(f) = Form::SimpleRange { vertex_count: 6 };
    r.sketch_mut(k).pipeline = 2;
    assert_eq!(r.shade(s).shader, "new");
    assert!(matches!(r.form(f), Form::SimpleRange { vertex_count: 6 }));
    assert_eq!(r.sketch(k).pipeline, 2);
    let plain: Shade<Mock> = Shade::new("x");
    assert_eq!(plain.shader, "x");
    let sketch: Sketch<Mock> = Sketch::new(5, 0);
    assert_eq!((sketch.pipeline, sketch.form_idx), (5, 0));
}

#[test]
fn vertex_keeps_position_and_color() {
    let v = vertex([0.35966998f32, -0.3473291, 0.0], [0.5, 0.0, 0.5]);
    assert_eq!(v.position, [0.35966998, -0.3473291, 0.0]);
    assert_eq!(v.color, [0.5, 0.0, 0.5]);
}
