use crate::buffer::{ColorBuffer, UvTable};
use crate::ident::Id;
use crate::node::shader_color;
use crate::object::{find_node, Object};
use crate::project::{
    channels, default_red, lemma_image_len, lemma_row_len, find_object, image_pixels, is_default_shader_project, pixel_color,
    render_pixels, row_pixels, Project,
};
use crate::value::{Vec4, ONE_BITS, ZERO_BITS};
use vstd::prelude::*;

verus! {

proof fn lemma_rows_agree(
    object: Object,
    n1: Option<Id>,
    n2: Option<Id>,
    uv: UvTable,
    j: int,
    cols: nat,
)
    requires
        forall|c: int| 0 <= c < cols ==> pixel_color(object, n1, uv, c, j) == pixel_color(object, n2, uv, c, j),
    ensures
        row_pixels(object, n1, uv, j, cols) == row_pixels(object, n2, uv, j, cols),
    decreases cols,
{
    if cols > 0 {
        lemma_rows_agree(object, n1, n2, uv, j, (cols - 1) as nat);
    }
}

proof fn lemma_images_agree(
    object: Object,
    n1: Option<Id>,
    n2: Option<Id>,
    uv: UvTable,
    width: nat,
    height: nat,
    rows: nat,
)
    requires
        forall|c: int, j: int| pixel_color(object, n1, uv, c, j) == pixel_color(object, n2, uv, c, j),
    ensures
        image_pixels(object, n1, uv, width, height, rows) == image_pixels(object, n2, uv, width, height, rows),
    decreases rows,
{
    if rows > 0 {
        lemma_images_agree(object, n1, n2, uv, width, height, (rows - 1) as nat);
        lemma_rows_agree(object, n1, n2, uv, height - rows, width);
    }
}

proof fn lemma_row_index(object: Object, node_id: Option<Id>, uv: UvTable, j: int, cols: nat, c: int, ch: int)
    requires
        0 <= c < cols,
        0 <= ch < 4,
    ensures
        row_pixels(object, node_id, uv, j, cols)[4 * c + ch] == channels(pixel_color(object, node_id, uv, c, j))[ch],
    decreases cols,
{
    lemma_row_len(object, node_id, uv, j, (cols - 1) as nat);
    if c < cols - 1 {
        lemma_row_index(object, node_id, uv, j, (cols - 1) as nat, c, ch);
    }
}

proof fn lemma_image_index(
    object: Object,
    node_id: Option<Id>,
    uv: UvTable,
    width: nat,
    height: nat,
    rows: nat,
    r: int,
    c: int,
    ch: int,
)
    requires
        0 <= r < rows,
        0 <= c < width,
        0 <= ch < 4,
    ensures
        image_pixels(object, node_id, uv, width, height, rows)[(r * width + c) * 4 + ch] == channels(
            pixel_color(object, node_id, uv, c, height - 1 - r),
        )[ch],
    decreases rows,
{
    let r1 = (rows - 1) as nat;
    lemma_image_len(object, node_id, uv, width, height, r1);
    if r < r1 {
        assert((r * width + c) * 4 + ch < width * r1 * 4) by (nonlinear_arith)
            requires
                0 <= r < r1,
                0 <= c < width,
                0 <= ch < 4,
        ;
        lemma_image_index(object, node_id, uv, width, height, r1, r, c, ch);
    } else {
        assert((r * width + c) * 4 + ch - width * r1 * 4 == 4 * c + ch) by (nonlinear_arith)
            requires
                r == r1,
        ;
        lemma_row_len(object, node_id, uv, height - rows, width);
        lemma_row_index(object, node_id, uv, height - rows, width, c, ch);
    }
}

/// Where each pixel's coordinates come from: stored row `r`, column `c` of a
/// rendered buffer holds the color for `u = uv.xs[c]` and `v = uv.ys[height - 1 - r]`,
/// so the first stored row is the top of the coordinate space and the last
/// one its bottom.
pub proof fn lemma_uv_mapping(
    project: Project,
    buffer: ColorBuffer,
    uv: UvTable,
    object_id: Id,
    node_id: Option<Id>,
    r: int,
    c: int,
)
    requires
        find_object(project.objects@, object_id).is_some(),
        0 <= r < buffer.height,
        0 <= c < buffer.width,
    ensures
        ({
            let o = find_object(project.objects@, object_id).unwrap();
            let color = pixel_color(o, node_id, uv, c, buffer.height - 1 - r);
            let px = render_pixels(project, buffer, uv, object_id, node_id);
            &&& px[(r * buffer.width + c) * 4] == color.x
            &&& px[(r * buffer.width + c) * 4 + 1] == color.y
            &&& px[(r * buffer.width + c) * 4 + 2] == color.z
            &&& px[(r * buffer.width + c) * 4 + 3] == color.w
        }),
        node_id.is_none() ==> pixel_color(
            find_object(project.objects@, object_id).unwrap(),
            node_id,
            uv,
            c,
            buffer.height - 1 - r,
        ) == (Vec4 { x: uv.xs@[c], y: uv.ys@[buffer.height - 1 - r], z: ZERO_BITS, w: ONE_BITS }),
{
    let o = find_object(project.objects@, object_id).unwrap();
    let w = buffer.width as nat;
    let h = buffer.height as nat;
    lemma_image_index(o, node_id, uv, w, h, h, r, c, 0);
    lemma_image_index(o, node_id, uv, w, h, h, r, c, 1);
    lemma_image_index(o, node_id, uv, w, h, h, r, c, 2);
    lemma_image_index(o, node_id, uv, w, h, h, r, c, 3);
}

/// Rendering is a function of its inputs: the same project, object, node and
/// coordinates give the same channels in two buffers of the same size, and in
/// two buffers that held the same channels before.
pub proof fn lemma_render_idempotent(
    project: Project,
    b1: ColorBuffer,
    b2: ColorBuffer,
    uv: UvTable,
    object_id: Id,
    node_id: Option<Id>,
)
    requires
        b1.width == b2.width,
        b1.height == b2.height,
        b1.pixels@ == b2.pixels@ || find_object(project.objects@, object_id).is_some(),
    ensures
        render_pixels(project, b1, uv, object_id, node_id) == render_pixels(project, b2, uv, object_id, node_id),
{
}

/// Naming a node that the object does not hold renders the same gradient as
/// naming no node.
pub proof fn lemma_missing_node_renders_gradient(
    project: Project,
    buffer: ColorBuffer,
    uv: UvTable,
    object_id: Id,
    node_id: Id,
)
    requires
        find_object(project.objects@, object_id) matches Some(o) ==> find_node(o.nodes@, node_id).is_none(),
    ensures
        render_pixels(project, buffer, uv, object_id, Some(node_id)) == render_pixels(project, buffer, uv, object_id, None),
{
    if let Some(o) = find_object(project.objects@, object_id) {
        lemma_images_agree(o, Some(node_id), None, uv, buffer.width as nat, buffer.height as nat, buffer.height as nat);
    }
}

/// A project without objects leaves the buffer as it was.
pub proof fn lemma_empty_project_renders_nothing(
    project: Project,
    buffer: ColorBuffer,
    uv: UvTable,
    object_id: Id,
    node_id: Option<Id>,
)
    requires
        project.objects@.len() == 0,
    ensures
        render_pixels(project, buffer, uv, object_id, node_id) == buffer.pixels@,
{
}

/// In the default project the shader node renders the literal red everywhere,
/// while naming no node renders the gradient of the coordinates.
pub proof fn lemma_default_project_renders_red(project: Project, uv: UvTable, c: int, j: int)
    requires
        is_default_shader_project(project),
    ensures
        find_object(project.objects@, project.objects@[0].id) == Some(project.objects@[0]),
        find_node(project.objects@[0].nodes@, project.objects@[0].nodes@[0].id) == Some(project.objects@[0].nodes@[0]),
        pixel_color(project.objects@[0], Some(project.objects@[0].nodes@[0].id), uv, c, j) == default_red(),
        pixel_color(project.objects@[0], None, uv, c, j) == (Vec4 { x: uv.xs@[c], y: uv.ys@[j], z: ZERO_BITS, w: ONE_BITS }),
{
    let node = project.objects@[0].nodes@[0];
    assert(shader_color(node.blocks@) == default_red());
}

} // verus!
