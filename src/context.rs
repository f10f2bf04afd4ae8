use crate::editing::{Command, Mode};
use crate::ident::Id;
use crate::node::Node;
use crate::object::{find_node, lemma_node_index_from, node_index};
use crate::project::{find_object, is_default_shader_project, lemma_object_index_from, object_index, Project};
use vstd::prelude::*;

verus! {

/// The node that the selection names: node `curr_node` of object
/// `curr_object`, where both are set and exist.
pub open spec fn selected_node(project: Project, curr_object: Option<Id>, curr_node: Option<Id>) -> Option<Node> {
    match (curr_object, curr_node) {
        (Some(oid), Some(nid)) => match find_object(project.objects@, oid) {
            Some(object) => find_node(object.nodes@, nid),
            None => None,
        },
        _ => None,
    }
}

/// The editing state shared by the editor's widgets: the project, what is
/// selected in it, the pending command, the input mode and the palette.
#[derive(Debug)]
pub struct Context {
    pub width: usize,
    pub height: usize,
    pub color_button: [u8; 4],
    pub color_widget: [u8; 4],
    pub color_toolbar: [u8; 4],
    pub color_selected: [u8; 4],
    pub color_text: [u8; 4],
    pub color_orange: [u8; 4],
    pub color_green: [u8; 4],
    pub color_red: [u8; 4],
    pub color_blue: [u8; 4],
    pub color_white: [u8; 4],
    pub color_black: [u8; 4],
    pub color_code_blue: [u8; 4],
    pub color_code_red: [u8; 4],
    pub color_code_yellow: [u8; 4],
    pub color_code_green: [u8; 4],
    pub project: Project,
    pub curr_object: Option<Id>,
    pub curr_node: Option<Id>,
    pub cmd: Option<Command>,
    pub curr_mode: Mode,
}

impl Context {
    /// A context on the default shader project, with its object and node
    /// selected and nothing pending.
    pub fn new() -> (r: Context)
        ensures
            is_default_shader_project(r.project),
            r.curr_object == Some(r.project.objects@[0].id),
            r.curr_node == Some(r.project.objects@[0].nodes@[0].id),
            r.cmd.is_none(),
            r.curr_mode == Mode::Select,
            r.width == 0,
            r.height == 0,
    {
        let mut project = Project::new();
        project.gen_default_shader_project();
        let curr_object = Some(project.objects[0].id);
        let curr_node = Some(project.objects[0].nodes[0].id);
        Context {
            width: 0,
            height: 0,
            color_button: [53, 53, 53, 255],
            color_selected: [135, 135, 135, 255],
            color_widget: [24, 24, 24, 255],
            color_toolbar: [29, 29, 29, 255],
            color_text: [244, 244, 244, 255],
            color_orange: [188, 68, 34, 255],
            color_green: [10, 93, 80, 255],
            color_red: [207, 55, 54, 255],
            color_blue: [27, 79, 136, 255],
            color_white: [255, 255, 255, 255],
            color_black: [0, 0, 0, 255],
            color_code_blue: [89, 154, 184, 255],
            color_code_red: [221, 102, 154, 255],
            color_code_yellow: [201, 187, 111, 255],
            color_code_green: [171, 228, 214, 255],
            project,
            curr_object,
            curr_node,
            cmd: None,
            curr_mode: Mode::Select,
        }
    }

    /// The selected node, if the selection names one that exists.
    pub fn get_node(&self) -> (r: Option<&Node>)
        ensures
            match r {
                Some(n) => selected_node(self.project, self.curr_object, self.curr_node) == Some(*n),
                None => selected_node(self.project, self.curr_object, self.curr_node).is_none(),
            },
    {
        if let Some(curr_object) = self.curr_object {
            if let Some(object) = self.project.get_object(curr_object) {
                if let Some(curr_node) = self.curr_node {
                    if let Some(node) = object.get_node(curr_node) {
                        return Some(node);
                    }
                }
            }
        }
        None
    }

    /// The selected node, to be edited in place. Only that node can change.
    pub fn get_node_mut(&mut self) -> (r: Option<&mut Node>)
        ensures
            final(self).curr_object == old(self).curr_object,
            final(self).curr_node == old(self).curr_node,
            final(self).curr_mode == old(self).curr_mode,
            final(self).cmd == old(self).cmd,
            final(self).project.id == old(self).project.id,
            match (old(self).curr_object, old(self).curr_node) {
                (Some(oid), Some(nid)) => match object_index(old(self).project.objects@, oid) {
                    Some(i) => match node_index(old(self).project.objects@[i].nodes@, nid) {
                        Some(k) => {
                            &&& r.is_some()
                            &&& *r.unwrap() == old(self).project.objects@[i].nodes@[k]
                            &&& final(self).project.objects@.len() == old(self).project.objects@.len()
                            &&& forall|j: int|
                                0 <= j < old(self).project.objects@.len() && j != i
                                    ==> final(self).project.objects@[j] == old(self).project.objects@[j]
                            &&& final(self).project.objects@[i].id == old(self).project.objects@[i].id
                            &&& final(self).project.objects@[i].nodes@
                                == old(self).project.objects@[i].nodes@.update(k, *final(r.unwrap()))
                        },
                        None => r.is_none() && final(self).project.objects@ == old(self).project.objects@,
                    },
                    None => r.is_none() && final(self).project.objects@ == old(self).project.objects@,
                },
                _ => r.is_none() && final(self).project.objects@ == old(self).project.objects@,
            },
    {
        if let Some(curr_object) = self.curr_object {
            proof {
                lemma_object_index_from(self.project.objects@, curr_object, 0);
            }
            let ghost objects = self.project.objects@;
            if let Some(object) = self.project.get_object_mut(curr_object) {
                if let Some(curr_node) = self.curr_node {
                    proof {
                        lemma_node_index_from(object.nodes@, curr_node, 0);
                    }
                    if let Some(node) = object.get_node_mut(curr_node) {
                        return Some(node);
                    }
                }
                proof {
                    let i = object_index(objects, curr_object).unwrap();
                    assert(objects.update(i, objects[i]) =~= objects);
                }
            }
        }
        None
    }
}

} // verus!
