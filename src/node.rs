use crate::block::{Block, BlockType, VariableMap};
use crate::ident::{fresh_id, Id};
use crate::value::{Value, Vec2, Vec4};
use crate::variable::Variable;
use vstd::prelude::*;

verus! {

/// The kind of a node.
#[derive(Clone, Copy, Debug, PartialEq, Eq, Structural)]
pub enum NodeType {
    Shader,
}

/// The variable named `color` in a block: a local one, else an argument.
pub open spec fn color_var(b: Block) -> Option<Variable> {
    match b.variables.spec_get("color"@) {
        Some(v) => Some(v),
        None => b.arguments.spec_get("color"@),
    }
}

/// The literal 4-vector a variable holds, or the zero vector.
pub open spec fn literal_vec4(v: Option<Variable>) -> Vec4 {
    match v {
        Some(var) => match var.value {
            Some(Value::Float4(c)) => c,
            _ => Vec4::spec_zero(),
        },
        None => Vec4::spec_zero(),
    }
}

/// The color a shader's blocks give: read from the first main block, the zero
/// vector where there is none.
pub open spec fn shader_color(blocks: Seq<Block>) -> Vec4
    decreases blocks.len(),
{
    if blocks.len() == 0 {
        Vec4::spec_zero()
    } else if blocks[0].block_type == BlockType::MainFunction {
        literal_vec4(color_var(blocks[0]))
    } else {
        shader_color(blocks.subrange(1, blocks.len() as int))
    }
}

/// A shader unit made of blocks.
#[derive(Debug)]
pub struct Node {
    pub id: Id,
    pub name: String,
    pub node_type: NodeType,
    pub blocks: Vec<Block>,
}

fn literal_of(v: Option<&Variable>) -> (r: Vec4)
    ensures
        r == literal_vec4(
            match v {
                Some(var) => Some(*var),
                None => None,
            },
        ),
{
    match v {
        Some(var) => match var.value {
            Some(Value::Float4(c)) => c,
            _ => Vec4::zero(),
        },
        None => Vec4::zero(),
    }
}

fn lookup_color<'a>(vars: &'a VariableMap, args: &'a VariableMap, key: &String) -> (r: Option<&'a Variable>)
    ensures
        match r {
            Some(v) => Some(*v) == match vars.spec_get(key@) {
                Some(x) => Some(x),
                None => args.spec_get(key@),
            },
            None => vars.spec_get(key@).is_none() && args.spec_get(key@).is_none(),
        },
{
    match vars.get(key) {
        Some(v) => Some(v),
        None => args.get(key),
    }
}

impl Node {
    /// A node with no blocks.
    pub fn new(name: String, node_type: NodeType) -> (r: Node)
        ensures
            r.name@ == name@,
            r.node_type == node_type,
            r.blocks@.len() == 0,
    {
        Node { id: fresh_id(), name, node_type, blocks: Vec::new() }
    }

    /// The color of this shader: the literal 4-vector held by the `color`
    /// variable of the first main block, or `(0, 0, 0, 0)` where that is
    /// missing. `uv` and `screen` are reserved for full evaluation.
    pub fn resolve_shader(&self, uv: Vec2, screen: Vec2) -> (r: Vec4)
        ensures
            r == shader_color(self.blocks@),
    {
        let n = self.blocks.len();
        let mut i: usize = 0;
        assert(self.blocks@.subrange(0, n as int) =~= self.blocks@);
        while i < n
            invariant
                n == self.blocks@.len(),
                i <= n,
                shader_color(self.blocks@) == shader_color(
                    self.blocks@.subrange(i as int, n as int),
                ),
            decreases n - i,
        {
            let ghost rest = self.blocks@.subrange(i as int, n as int);
            let b = &self.blocks[i];
            assert(rest[0] == *b);
            if b.block_type == BlockType::MainFunction {
                let key = "color".to_string();
                let v = lookup_color(&b.variables, &b.arguments, &key);
                return literal_of(v);
            }
            assert(rest.subrange(1, rest.len() as int) =~= self.blocks@.subrange(
                i + 1,
                n as int,
            ));
            i = i + 1;
        }
        Vec4::zero()
    }
}

} // verus!
