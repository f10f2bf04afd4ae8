use shader_graph::block::BlockType;
use shader_graph::buffer::{ColorBuffer, UvTable};
use shader_graph::node::NodeType;
use shader_graph::object::Object;
use shader_graph::project::Project;
use shader_graph::value::{Value, Vec2, Vec4};

/// The coordinates of a `width` x `height` grid: `u = x / width` per column,
/// and `v = 1 - (height - j) / height` for the `j`-th row from the bottom.
fn uv_table(width: usize, height: usize) -> UvTable {
    let xs = (0..width).map(|x| (x as f32 / width as f32).to_bits()).collect();
    let ys = (0..height)
        .map(|j| (1.0 - (height - j) as f32 / height as f32).to_bits())
        .collect();
    let screen = Vec2::new((width as f32).to_bits(), (height as f32).to_bits());
    UvTable { xs, ys, screen }
}

fn pixel(buffer: &ColorBuffer, row: usize, col: usize) -> [f32; 4] {
    let at = (row * buffer.width + col) * 4;
    [
        f32::from_bits(buffer.pixels[at]),
        f32::from_bits(buffer.pixels[at + 1]),
        f32::from_bits(buffer.pixels[at + 2]),
        f32::from_bits(buffer.pixels[at + 3]),
    ]
}

fn default_project() -> (Project, u128, u128) {
    let mut p = Project::new();
    p.gen_default_shader_project();
    let oid = p.objects[0].id;
    let nid = p.objects[0].nodes[0].id;
    (p, oid, nid)
}

#[test]
fn default_project_shape() {
    let (p, _, _) = default_project();
    assert_eq!(p.objects.len(), 1);
    assert_eq!(p.objects[0].nodes.len(), 1);
    let node = &p.objects[0].nodes[0];
    assert_eq!(node.name, "Shader");
    assert!(matches!(node.node_type, NodeType::Shader));
    assert_eq!(node.blocks.len(), 1);
    let block = &node.blocks[0];
    assert_eq!(block.block_type, BlockType::MainFunction);
    assert_eq!(block.name, "color");
    let color = block.variables.get(&"color".to_string()).unwrap();
    assert_eq!(
        color.value,
        Some(Value::Float4(Vec4::new(
            1.0f32.to_bits(),
            0.0f32.to_bits(),
            0.0f32.to_bits(),
            1.0f32.to_bits()
        )))
    );
}

#[test]
fn default_project_renders_red_with_node() {
    let (p, oid, nid) = default_project();
    let mut b = ColorBuffer::new(4, 3);
    p.render_object(&mut b, &uv_table(4, 3), oid, Some(nid));
    for r in 0..3 {
        for c in 0..4 {
            assert_eq!(pixel(&b, r, c), [1.0, 0.0, 0.0, 1.0]);
        }
    }
}

#[test]
fn default_project_renders_gradient_without_node() {
    let (p, oid, _) = default_project();
    let mut b = ColorBuffer::new(4, 2);
    p.render_object(&mut b, &uv_table(4, 2), oid, None);
    assert_eq!(pixel(&b, 0, 0), [0.0, 0.5, 0.0, 1.0]);
    assert_eq!(pixel(&b, 0, 3), [0.75, 0.5, 0.0, 1.0]);
    assert_eq!(pixel(&b, 1, 2), [0.5, 0.0, 0.0, 1.0]);
    assert_ne!(pixel(&b, 0, 3), [1.0, 0.0, 0.0, 1.0]);
}

#[test]
fn uv_mapping_corners() {
    let (p, oid, _) = default_project();
    let (w, h) = (8usize, 5usize);
    let mut b = ColorBuffer::new(w, h);
    p.render_object(&mut b, &uv_table(w, h), oid, None);
    let tol = 1.0 / h as f32 + 1e-6;
    let first = pixel(&b, 0, 0);
    assert_eq!(first[0], 0.0);
    assert!((first[1] - 1.0).abs() <= tol);
    let last = pixel(&b, h - 1, w - 1);
    assert_eq!(last[0], (w - 1) as f32 / w as f32);
    assert!((last[1] - 1.0 / h as f32).abs() <= tol);
    assert!(first[1] > last[1]);
}

#[test]
fn render_twice_is_identical() {
    let (p, oid, nid) = default_project();
    let uv = uv_table(6, 4);
    for node in [None, Some(nid)] {
        let mut a = ColorBuffer::new(6, 4);
        let mut b = ColorBuffer::new(6, 4);
        p.render_object(&mut a, &uv, oid, node);
        p.render_object(&mut b, &uv, oid, node);
        assert_eq!(a, b);
    }
}

#[test]
fn unknown_node_renders_gradient() {
    let (p, oid, nid) = default_project();
    let uv = uv_table(5, 3);
    let mut with_missing = ColorBuffer::new(5, 3);
    let mut without = ColorBuffer::new(5, 3);
    p.render_object(&mut with_missing, &uv, oid, Some(nid.wrapping_add(1)));
    p.render_object(&mut without, &uv, oid, None);
    assert_eq!(with_missing, without);
}

#[test]
fn empty_project_leaves_buffer() {
    let p = Project::new();
    let mut b = ColorBuffer::new(3, 2);
    b.pixels[5] = 42;
    let before = b.clone();
    p.render_object(&mut b, &uv_table(3, 2), 7, None);
    assert_eq!(b, before);
}

#[test]
fn unknown_object_leaves_buffer() {
    let (p, oid, nid) = default_project();
    let mut b = ColorBuffer::new(3, 2);
    let before = b.clone();
    p.render_object(&mut b, &uv_table(3, 2), oid.wrapping_add(1), Some(nid));
    assert_eq!(b, before);
}

#[test]
fn empty_object_renders_gradient() {
    let mut p = Project::new();
    let o = Object::new();
    let oid = o.id;
    p.objects.push(o);
    let mut b = ColorBuffer::new(2, 2);
    p.render_object(&mut b, &uv_table(2, 2), oid, Some(3));
    assert_eq!(pixel(&b, 1, 1), [0.5, 0.0, 0.0, 1.0]);
}

#[test]
fn zero_sized_buffer() {
    let (p, oid, nid) = default_project();
    let mut b = ColorBuffer::new(0, 0);
    p.render_object(&mut b, &uv_table(0, 0), oid, Some(nid));
    assert!(b.pixels.is_empty());
}

#[test]
fn one_worker_matches_many() {
    let (p, oid, _) = default_project();
    let uv = uv_table(16, 9);
    let one = rayon::ThreadPoolBuilder::new().num_threads(1).build().unwrap();
    let many = rayon::ThreadPoolBuilder::new().num_threads(4).build().unwrap();
    let mut a = ColorBuffer::new(16, 9);
    let mut b = ColorBuffer::new(16, 9);
    one.install(|| p.render_object(&mut a, &uv, oid, None));
    many.install(|| p.render_object(&mut b, &uv, oid, None));
    assert_eq!(a, b);
}

#[test]
fn new_buffer_is_zero() {
    let b = ColorBuffer::new(3, 2);
    assert_eq!(b.pixels, vec![0u32; 24]);
}

#[test]
fn object_lookup_in_project() {
    let (mut p, oid, _) = default_project();
    assert_eq!(p.get_object(oid).unwrap().id, oid);
    assert!(p.get_object(oid.wrapping_add(1)).is_none());
    p.get_object_mut(oid).unwrap().nodes.clear();
    assert!(p.objects[0].nodes.is_empty());
    assert!(p.get_object_mut(oid.wrapping_add(1)).is_none());
}
