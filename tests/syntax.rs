use shader_graph::block::{Block, BlockType, VariableMap};
use shader_graph::editing::{Command, Mode};
use shader_graph::expression::Expression;
use shader_graph::function::{Function, FunctionName};
use shader_graph::line::Line;
use shader_graph::node::{Node, NodeType};
use shader_graph::object::Object;
use shader_graph::value::{Value, Vec2, Vec3, Vec4, ONE_BITS, ZERO_BITS};
use shader_graph::variable::Variable;

fn bits(v: f32) -> u32 {
    v.to_bits()
}

#[test]
fn variant_eq_ignores_payload() {
    let a = Value::Float(bits(1.5));
    let b = Value::Float(bits(-3.0));
    assert!(a.variant_eq(&b));
    let c = Value::Float4(Vec4::new(bits(1.0), 0, 0, 0));
    let d = Value::Float4(Vec4::new(bits(0.25), bits(0.5), bits(2.0), bits(9.0)));
    assert!(c.variant_eq(&d));
    let e = Value::Float2(Vec2::new(1, 2));
    let f = Value::Float2(Vec2::new(3, 4));
    assert!(e.variant_eq(&f));
}

#[test]
fn variant_eq_differs_across_tags() {
    let values = [
        Value::Float(0),
        Value::Float2(Vec2::new(0, 0)),
        Value::Float3(Vec3 { x: 0, y: 0, z: 0 }),
        Value::Float4(Vec4::new(0, 0, 0, 0)),
    ];
    for (i, a) in values.iter().enumerate() {
        for (j, b) in values.iter().enumerate() {
            assert_eq!(a.variant_eq(b), i == j);
        }
    }
}

#[test]
fn every_value_is_float() {
    assert!(Value::Float(bits(2.0)).is_float());
    assert!(Value::Float2(Vec2::new(0, 0)).is_float());
    assert!(Value::Float3(Vec3 { x: 0, y: 0, z: 0 }).is_float());
    assert!(Value::Float4(Vec4::zero()).is_float());
}

#[test]
fn float_constants_are_bit_patterns() {
    assert_eq!(ONE_BITS, bits(1.0));
    assert_eq!(ZERO_BITS, bits(0.0));
}

#[test]
fn unary_functions_hold_one_placeholder() {
    for name in [FunctionName::Abs, FunctionName::Sin] {
        let f = Function::new(name);
        assert_eq!(f.name, name);
        assert_eq!(f.args.len(), 1);
        assert_eq!(f.args[0].name, FunctionName::Empty);
        assert!(f.args[0].args.is_empty());
    }
}

#[test]
fn nullary_functions_hold_no_arguments() {
    assert!(Function::new(FunctionName::Empty).args.is_empty());
    assert!(Function::new(FunctionName::F4).args.is_empty());
}

#[test]
fn replacing_an_argument_keeps_the_arity() {
    let mut f = Function::new(FunctionName::Abs);
    let id = f.id;
    f.replace_arg(0, Function::new(FunctionName::Sin));
    assert_eq!(f.id, id);
    assert_eq!(f.name, FunctionName::Abs);
    assert_eq!(f.args.len(), 1);
    assert_eq!(f.args[0].name, FunctionName::Sin);
    assert_eq!(f.args[0].args.len(), 1);
}

#[test]
fn create_recognizes_abs_and_sin() {
    let abs = Function::create("abs").unwrap();
    assert_eq!(abs.name, FunctionName::Abs);
    assert_eq!(abs.args.len(), 1);
    let sin = Function::create("sin").unwrap();
    assert_eq!(sin.name, FunctionName::Sin);
    assert_eq!(sin.args.len(), 1);
}

#[test]
fn create_rejects_other_names() {
    assert!(Function::create("cos").is_none());
    assert!(Function::create("").is_none());
    assert!(Function::create("Abs").is_none());
    assert!(Function::create("abs ").is_none());
}

#[test]
fn resolve_is_scalar_zero() {
    assert_eq!(Function::resolve(), Value::Float(bits(0.0)));
}

#[test]
fn fresh_entities_have_distinct_ids() {
    let a = Function::new(FunctionName::Abs);
    let b = Function::new(FunctionName::Abs);
    assert_ne!(a.id, b.id);
    assert_ne!(a.id, a.args[0].id);
    assert_ne!(Variable::empty().id, Variable::empty().id);
}

#[test]
fn new_expression_is_empty() {
    let e = Expression::new();
    assert!(e.functions.is_empty());
    assert!(e.operators.is_empty());
}

#[test]
fn new_line_has_empty_target() {
    let l = Line::new();
    assert!(l.variable.value.is_none());
    assert!(l.variable.reference.is_none());
    assert!(l.expressions.is_empty());
}

#[test]
fn variable_constructors() {
    let e = Variable::empty();
    assert!(e.value.is_none() && e.reference.is_none());
    let v = Variable::new(Value::Float(bits(0.5)));
    assert_eq!(v.value, Some(Value::Float(bits(0.5))));
    assert!(v.reference.is_none());
    let r = Variable::new_reference(v.id);
    assert!(r.value.is_none());
    assert_eq!(r.reference, Some(v.id));
}

#[test]
fn variable_map_insert_and_replace() {
    let mut m = VariableMap::new();
    assert!(m.get(&"color".to_string()).is_none());
    m.insert("color".to_string(), Variable::new(Value::Float(1)));
    m.insert("alpha".to_string(), Variable::new(Value::Float(2)));
    assert_eq!(m.len(), 2);
    assert_eq!(m.get(&"color".to_string()).unwrap().value, Some(Value::Float(1)));
    m.insert("color".to_string(), Variable::new(Value::Float(3)));
    assert_eq!(m.len(), 2);
    assert_eq!(m.get(&"color".to_string()).unwrap().value, Some(Value::Float(3)));
    assert_eq!(m.get(&"alpha".to_string()).unwrap().value, Some(Value::Float(2)));
    assert!(m.get(&"beta".to_string()).is_none());
}

#[test]
fn new_block_is_empty() {
    let b = Block::new("main".to_string(), BlockType::Function);
    assert_eq!(b.name, "main");
    assert_eq!(b.block_type, BlockType::Function);
    assert_eq!(b.arguments.len(), 0);
    assert_eq!(b.variables.len(), 0);
    assert!(b.lines.is_empty());
}

fn block_with_color(block_type: BlockType, value: Value) -> Block {
    let mut b = Block::new("color".to_string(), block_type);
    b.variables.insert("color".to_string(), Variable::new(value));
    b
}

fn red() -> Vec4 {
    Vec4::new(bits(1.0), bits(0.0), bits(0.0), bits(1.0))
}

#[test]
fn shader_reads_main_block_color() {
    let mut n = Node::new("Shader".to_string(), NodeType::Shader);
    n.blocks.push(block_with_color(BlockType::Function, Value::Float4(Vec4::new(5, 6, 7, 8))));
    n.blocks.push(block_with_color(BlockType::MainFunction, Value::Float4(red())));
    let uv = Vec2::new(0, 0);
    assert_eq!(n.resolve_shader(uv, uv), red());
}

#[test]
fn shader_without_main_block_is_zero() {
    let mut n = Node::new("Shader".to_string(), NodeType::Shader);
    let uv = Vec2::new(0, 0);
    assert_eq!(n.resolve_shader(uv, uv), Vec4::zero());
    n.blocks.push(block_with_color(BlockType::Function, Value::Float4(red())));
    assert_eq!(n.resolve_shader(uv, uv), Vec4::zero());
}

#[test]
fn shader_with_wrong_variant_is_zero() {
    let mut n = Node::new("Shader".to_string(), NodeType::Shader);
    n.blocks.push(block_with_color(BlockType::MainFunction, Value::Float(bits(1.0))));
    let uv = Vec2::new(0, 0);
    assert_eq!(n.resolve_shader(uv, uv), Vec4::zero());
}

#[test]
fn shader_with_missing_color_is_zero() {
    let mut n = Node::new("Shader".to_string(), NodeType::Shader);
    let mut b = Block::new("color".to_string(), BlockType::MainFunction);
    b.variables.insert("other".to_string(), Variable::new(Value::Float4(red())));
    n.blocks.push(b);
    let uv = Vec2::new(0, 0);
    assert_eq!(n.resolve_shader(uv, uv), Vec4::zero());
}

#[test]
fn shader_reads_color_argument() {
    let mut n = Node::new("Shader".to_string(), NodeType::Shader);
    let mut b = Block::new("color".to_string(), BlockType::MainFunction);
    b.arguments.insert("color".to_string(), Variable::new(Value::Float4(red())));
    n.blocks.push(b);
    let uv = Vec2::new(0, 0);
    assert_eq!(n.resolve_shader(uv, uv), red());
}

#[test]
fn object_node_lookup() {
    let mut o = Object::new();
    let a = Node::new("a".to_string(), NodeType::Shader);
    let b = Node::new("b".to_string(), NodeType::Shader);
    let (ida, idb) = (a.id, b.id);
    o.nodes.push(a);
    o.nodes.push(b);
    assert_eq!(o.get_node(idb).unwrap().name, "b");
    assert_eq!(o.get_node(ida).unwrap().name, "a");
    let mut missing: u128 = 0;
    while missing == ida || missing == idb {
        missing += 1;
    }
    assert!(o.get_node(missing).is_none());
    assert!(o.get_node_mut(missing).is_none());
    o.get_node_mut(idb).unwrap().name = "c".to_string();
    assert_eq!(o.get_node(idb).unwrap().name, "c");
    assert_eq!(o.nodes[1].name, "c");
    o.add_shader();
    assert_eq!(o.nodes.len(), 2);
}

#[test]
fn editor_modes_and_commands() {
    assert_ne!(Mode::Select, Mode::Edit);
    assert_eq!(Mode::Camera, Mode::Camera);
    let c = Command::SetDragFunction("abs".to_string());
    assert_eq!(c, Command::SetDragFunction("abs".to_string()));
    assert_ne!(c, Command::SetDragFunction("sin".to_string()));
}

#[test]
fn variable_map_from_entries() {
    let ok = VariableMap::from_entries(vec![
        ("a".to_string(), Variable::new(Value::Float(1))),
        ("b".to_string(), Variable::new(Value::Float(2))),
    ])
    .unwrap();
    assert_eq!(ok.len(), 2);
    assert_eq!(ok.get(&"b".to_string()).unwrap().value, Some(Value::Float(2)));
    let dup = VariableMap::from_entries(vec![
        ("a".to_string(), Variable::new(Value::Float(1))),
        ("b".to_string(), Variable::new(Value::Float(2))),
        ("a".to_string(), Variable::new(Value::Float(3))),
    ]);
    assert!(dup.is_none());
    assert_eq!(VariableMap::from_entries(vec![]).unwrap().len(), 0);
}
