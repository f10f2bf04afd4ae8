use crate::block::{Block, BlockType};
use crate::buffer::{ColorBuffer, UvTable};
use crate::ident::{fresh_id, Id};
use crate::node::{shader_color, Node, NodeType};
use crate::object::{find_node, Object};
use crate::value::{Value, Vec2, Vec4, ONE_BITS, ZERO_BITS};
use crate::variable::Variable;
use rayon::iter::{IntoParallelIterator, ParallelIterator};
use vstd::prelude::*;

verus! {

/// The index of the first object at or after `start` whose identifier is `id`.
pub open spec fn object_index_from(objects: Seq<Object>, id: Id, start: int) -> Option<int>
    decreases objects.len() - start,
{
    if start < 0 || start >= objects.len() {
        None
    } else if objects[start].id == id {
        Some(start)
    } else {
        object_index_from(objects, id, start + 1)
    }
}

/// The index of the first object whose identifier is `id`.
pub open spec fn object_index(objects: Seq<Object>, id: Id) -> Option<int> {
    object_index_from(objects, id, 0)
}

pub(crate) proof fn lemma_object_index_from(objects: Seq<Object>, id: Id, start: int)
    requires
        0 <= start,
    ensures
        match object_index_from(objects, id, start) {
            Some(i) => start <= i < objects.len() && objects[i].id == id,
            None => forall|j: int| start <= j < objects.len() ==> objects[j].id != id,
        },
    decreases objects.len() - start,
{
    if start < objects.len() && objects[start].id != id {
        lemma_object_index_from(objects, id, start + 1);
    }
}

/// The object with identifier `id` among `objects`, if any.
pub open spec fn find_object(objects: Seq<Object>, id: Id) -> Option<Object> {
    match object_index(objects, id) {
        Some(i) => Some(objects[i]),
        None => None,
    }
}

/// The color of the pixel in column `c` of the `j`-th row from the bottom:
/// the node's color where `node_id` names a node of the object, else the
/// gradient `(u, v, 0, 1)`.
pub open spec fn pixel_color(object: Object, node_id: Option<Id>, uv: UvTable, c: int, j: int) -> Vec4 {
    let gradient = Vec4 { x: uv.xs@[c], y: uv.ys@[j], z: ZERO_BITS, w: ONE_BITS };
    match node_id {
        Some(nid) => match find_node(object.nodes@, nid) {
            Some(node) => shader_color(node.blocks@),
            None => gradient,
        },
        None => gradient,
    }
}

/// The channels of a color in buffer order.
pub open spec fn channels(v: Vec4) -> Seq<u32> {
    seq![v.x, v.y, v.z, v.w]
}

/// The channels of the first `cols` pixels of the `j`-th row from the bottom.
pub open spec fn row_pixels(object: Object, node_id: Option<Id>, uv: UvTable, j: int, cols: nat) -> Seq<u32>
    decreases cols,
{
    if cols == 0 {
        Seq::empty()
    } else {
        row_pixels(object, node_id, uv, j, (cols - 1) as nat) + channels(
            pixel_color(object, node_id, uv, cols - 1, j),
        )
    }
}

/// The channels of the first `rows` stored rows of a `width` x `height`
/// image; stored row `r` is row `height - 1 - r` counted from the bottom.
pub open spec fn image_pixels(
    object: Object,
    node_id: Option<Id>,
    uv: UvTable,
    width: nat,
    height: nat,
    rows: nat,
) -> Seq<u32>
    decreases rows,
{
    if rows == 0 {
        Seq::empty()
    } else {
        image_pixels(object, node_id, uv, width, height, (rows - 1) as nat) + row_pixels(
            object,
            node_id,
            uv,
            height - rows,
            width,
        )
    }
}

/// The channels that rendering `object_id` (and `node_id`) of `project` leaves
/// in `buffer`: the image where the object exists, else what it held.
pub open spec fn render_pixels(
    project: Project,
    buffer: ColorBuffer,
    uv: UvTable,
    object_id: Id,
    node_id: Option<Id>,
) -> Seq<u32> {
    match find_object(project.objects@, object_id) {
        Some(object) => image_pixels(
            object,
            node_id,
            uv,
            buffer.width as nat,
            buffer.height as nat,
            buffer.height as nat,
        ),
        None => buffer.pixels@,
    }
}

pub(crate) proof fn lemma_row_len(object: Object, node_id: Option<Id>, uv: UvTable, j: int, cols: nat)
    ensures
        row_pixels(object, node_id, uv, j, cols).len() == 4 * cols,
    decreases cols,
{
    if cols > 0 {
        lemma_row_len(object, node_id, uv, j, (cols - 1) as nat);
    }
}

pub(crate) proof fn lemma_image_len(
    object: Object,
    node_id: Option<Id>,
    uv: UvTable,
    width: nat,
    height: nat,
    rows: nat,
)
    ensures
        image_pixels(object, node_id, uv, width, height, rows).len() == width * rows * 4,
    decreases rows,
{
    if rows > 0 {
        lemma_image_len(object, node_id, uv, width, height, (rows - 1) as nat);
        lemma_row_len(object, node_id, uv, height - rows, width);
        let r1 = (rows - 1) as nat;
        assert(width * r1 * 4 + 4 * width == width * rows * 4) by (nonlinear_arith)
            requires
                r1 + 1 == rows,
        ;
    } else {
        assert(width * rows * 4 == 0) by (nonlinear_arith)
            requires
                rows == 0,
        ;
    }
}

/// The channels of the `j`-th row from the bottom.
fn render_row(object: &Object, node_id: Option<Id>, uv: &UvTable, j: usize) -> (r: Vec<u32>)
    requires
        j < uv.ys@.len(),
    ensures
        r@ == row_pixels(*object, node_id, *uv, j as int, uv.xs@.len()),
{
    let node: Option<&Node> = match node_id {
        Some(nid) => object.get_node(nid),
        None => None,
    };
    let width = uv.xs.len();
    let mut out: Vec<u32> = Vec::new();
    let mut c: usize = 0;
    while c < width
        invariant
            width == uv.xs@.len(),
            j < uv.ys@.len(),
            c <= width,
            out@ == row_pixels(*object, node_id, *uv, j as int, c as nat),
            match node {
                Some(n) => forall|k: int|
                    0 <= k < width ==> pixel_color(*object, node_id, *uv, k, j as int) == shader_color(n.blocks@),
                None => forall|k: int|
                    0 <= k < width ==> pixel_color(*object, node_id, *uv, k, j as int) == (Vec4 {
                        x: uv.xs@[k],
                        y: uv.ys@[j as int],
                        z: ZERO_BITS,
                        w: ONE_BITS,
                    }),
            },
        decreases width - c,
    {
        let at = Vec2::new(uv.xs[c], uv.ys[j]);
        let color = match node {
            Some(n) => n.resolve_shader(at, uv.screen),
            None => Vec4::new(at.x, at.y, ZERO_BITS, ONE_BITS),
        };
        out.push(color.x);
        out.push(color.y);
        out.push(color.z);
        out.push(color.w);
        proof {
            assert(out@ =~= row_pixels(*object, node_id, *uv, j as int, c as nat) + channels(color));
        }
        c = c + 1;
    }
    out
}

/// Relies on rayon: `into_par_iter` over `0..height`, `map` and `collect` into
/// a `Vec`. The range is an indexed parallel iterator, and collecting it keeps
/// index order whatever the number of workers, so row `j` of the result is
/// what `render_row` gives for `j`.
#[verifier::external_body]
fn par_render_rows(object: &Object, node_id: Option<Id>, uv: &UvTable, height: usize) -> (rows: Vec<Vec<u32>>)
    requires
        height == uv.ys@.len(),
    ensures
        rows@.len() == height,
        forall|j: int|
            0 <= j < height ==> (#[trigger] rows@[j])@ == row_pixels(
                *object,
                node_id,
                *uv,
                j,
                uv.xs@.len(),
            ),
{
    (0..height).into_par_iter().map(|j| render_row(object, node_id, uv, j)).collect()
}

/// The red of the default shader: `(1, 0, 0, 1)`.
pub open spec fn default_red() -> Vec4 {
    Vec4 { x: ONE_BITS, y: ZERO_BITS, z: ZERO_BITS, w: ONE_BITS }
}

/// One object holding one shader node, whose one block is a main block named
/// `color` with a local `color` variable holding the literal red.
pub open spec fn is_default_shader_project(p: Project) -> bool {
    &&& p.objects@.len() == 1
    &&& p.objects@[0].nodes@.len() == 1
    &&& p.objects@[0].nodes@[0].name@ == "Shader"@
    &&& p.objects@[0].nodes@[0].node_type == NodeType::Shader
    &&& p.objects@[0].nodes@[0].blocks@.len() == 1
    &&& p.objects@[0].nodes@[0].blocks@[0].name@ == "color"@
    &&& p.objects@[0].nodes@[0].blocks@[0].block_type == BlockType::MainFunction
    &&& p.objects@[0].nodes@[0].blocks@[0].well_formed()
    &&& p.objects@[0].nodes@[0].blocks@[0].variables.spec_get("color"@) matches Some(v)
        && v.value == Some(Value::Float4(default_red())) && v.reference.is_none()
}

/// The top-level collection of objects.
#[derive(Debug)]
pub struct Project {
    pub id: Id,
    pub objects: Vec<Object>,
}

impl Project {
    /// Replaces the objects by the default one: a shader node whose main
    /// block sets `color` to red.
    pub fn gen_default_shader_project(&mut self)
        ensures
            final(self).id == old(self).id,
            is_default_shader_project(*final(self)),
    {
        let mut object = Object::new();
        let mut node = Node::new("Shader".to_string(), NodeType::Shader);
        let mut color_block = Block::new("color".to_string(), BlockType::MainFunction);
        let color_out_var = Variable::new(Value::Float4(Vec4::new(ONE_BITS, ZERO_BITS, ZERO_BITS, ONE_BITS)));
        color_block.variables.insert("color".to_string(), color_out_var);
        let mut blocks: Vec<Block> = Vec::new();
        blocks.push(color_block);
        node.blocks = blocks;
        let mut nodes: Vec<Node> = Vec::new();
        nodes.push(node);
        object.nodes = nodes;
        let mut objects: Vec<Object> = Vec::new();
        objects.push(object);
        self.objects = objects;
    }

    fn position(&self, id: Id) -> (r: Option<usize>)
        ensures
            match r {
                Some(i) => i < self.objects@.len() && object_index(self.objects@, id) == Some(
                    i as int,
                ),
                None => object_index(self.objects@, id).is_none(),
            },
    {
        let n = self.objects.len();
        let mut i: usize = 0;
        while i < n
            invariant
                n == self.objects@.len(),
                i <= n,
                object_index(self.objects@, id) == object_index_from(self.objects@, id, i as int),
            decreases n - i,
        {
            if self.objects[i].id == id {
                return Some(i);
            }
            i = i + 1;
        }
        None
    }

    /// The object with identifier `id`, if the project holds one.
    pub fn get_object(&self, id: Id) -> (r: Option<&Object>)
        ensures
            match r {
                Some(o) => find_object(self.objects@, id) == Some(*o) && o.id == id,
                None => find_object(self.objects@, id).is_none() && forall|j: int|
                    0 <= j < self.objects@.len() ==> self.objects@[j].id != id,
            },
    {
        proof {
            lemma_object_index_from(self.objects@, id, 0);
        }
        match self.position(id) {
            Some(i) => Some(&self.objects[i]),
            None => None,
        }
    }

    /// The object with identifier `id`, to be edited in place.
    pub fn get_object_mut(&mut self, id: Id) -> (r: Option<&mut Object>)
        ensures
            final(self).id == old(self).id,
            match object_index(old(self).objects@, id) {
                Some(i) => r.is_some() && *r.unwrap() == old(self).objects@[i]
                    && final(self).objects@ == old(self).objects@.update(i, *final(r.unwrap())),
                None => r.is_none() && *final(self) == *old(self),
            },
    {
        match self.position(id) {
            Some(i) => Some(&mut self.objects[i]),
            None => None,
        }
    }

    /// Fills `buffer` with the rendering of object `object_id`: each pixel gets
    /// the color of node `node_id` where the object holds that node, else the
    /// gradient `(u, v, 0, 1)` of its coordinates in `uv`. Rows are rendered in
    /// parallel, from the last stored row up. A missing object leaves the
    /// buffer as it was.
    pub fn render_object(&self, buffer: &mut ColorBuffer, uv: &UvTable, object_id: Id, node_id: Option<Id>)
        requires
            old(buffer).well_formed(),
            uv.fits(old(buffer).width as nat, old(buffer).height as nat),
        ensures
            final(buffer).width == old(buffer).width,
            final(buffer).height == old(buffer).height,
            final(buffer).well_formed(),
            final(buffer).pixels@ == render_pixels(*self, *old(buffer), *uv, object_id, node_id),
    {
        let width = buffer.width;
        let height = buffer.height;
        match self.get_object(object_id) {
            Some(object) => {
                let rows = par_render_rows(object, node_id, uv, height);
                let mut out: Vec<u32> = Vec::new();
                let mut r: usize = 0;
                while r < height
                    invariant
                        height == uv.ys@.len(),
                        width == uv.xs@.len(),
                        rows@.len() == height,
                        forall|j: int|
                            0 <= j < height ==> (#[trigger] rows@[j])@ == row_pixels(
                                *object,
                                node_id,
                                *uv,
                                j,
                                width as nat,
                            ),
                        r <= height,
                        out@ == image_pixels(*object, node_id, *uv, width as nat, height as nat, r as nat),
                    decreases height - r,
                {
                    let row = &rows[height - 1 - r];
                    let ghost before = out@;
                    let n = row.len();
                    let mut k: usize = 0;
                    while k < n
                        invariant
                            n == row@.len(),
                            k <= n,
                            out@ == before + row@.subrange(0, k as int),
                        decreases n - k,
                    {
                        out.push(row[k]);
                        assert(row@.subrange(0, k + 1) =~= row@.subrange(0, k as int).push(row@[k as int]));
                        k = k + 1;
                    }
                    assert(row@.subrange(0, n as int) =~= row@);
                    r = r + 1;
                }
                proof {
                    lemma_image_len(*object, node_id, *uv, width as nat, height as nat, height as nat);
                }
                buffer.pixels = out;
            },
            None => {},
        }
    }

    /// A project with no objects.
    pub fn new() -> (r: Project)
        ensures
            r.objects@.len() == 0,
    {
        Project { id: fresh_id(), objects: Vec::new() }
    }
}

} // verus!
