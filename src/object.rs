use crate::ident::{fresh_id, Id};
use crate::node::Node;
use vstd::prelude::*;

verus! {

/// The index of the first node at or after `start` whose identifier is `id`.
pub open spec fn node_index_from(nodes: Seq<Node>, id: Id, start: int) -> Option<int>
    decreases nodes.len() - start,
{
    if start < 0 || start >= nodes.len() {
        None
    } else if nodes[start].id == id {
        Some(start)
    } else {
        node_index_from(nodes, id, start + 1)
    }
}

/// The index of the first node whose identifier is `id`.
pub open spec fn node_index(nodes: Seq<Node>, id: Id) -> Option<int> {
    node_index_from(nodes, id, 0)
}

pub(crate) proof fn lemma_node_index_from(nodes: Seq<Node>, id: Id, start: int)
    requires
        0 <= start,
    ensures
        match node_index_from(nodes, id, start) {
            Some(i) => start <= i < nodes.len() && nodes[i].id == id
                && forall|j: int| start <= j < i ==> nodes[j].id != id,
            None => forall|j: int| start <= j < nodes.len() ==> nodes[j].id != id,
        },
    decreases nodes.len() - start,
{
    if start < nodes.len() && nodes[start].id != id {
        lemma_node_index_from(nodes, id, start + 1);
    }
}

/// The node with identifier `id` among `nodes`, if any.
pub open spec fn find_node(nodes: Seq<Node>, id: Id) -> Option<Node> {
    match node_index(nodes, id) {
        Some(i) => Some(nodes[i]),
        None => None,
    }
}

/// A collection of nodes addressed by identity.
#[derive(Debug)]
pub struct Object {
    pub id: Id,
    pub nodes: Vec<Node>,
}

impl Object {
    /// An object with no nodes.
    pub fn new() -> (r: Object)
        ensures
            r.nodes@.len() == 0,
    {
        Object { id: fresh_id(), nodes: Vec::new() }
    }

    /// Adding a shader node from the editor is not offered yet: the object
    /// stays as it is.
    pub fn add_shader(&mut self)
        ensures
            *final(self) == *old(self),
    {
    }

    fn position(&self, id: Id) -> (r: Option<usize>)
        ensures
            match r {
                Some(i) => i < self.nodes@.len() && node_index(self.nodes@, id) == Some(i as int),
                None => node_index(self.nodes@, id).is_none(),
            },
    {
        let n = self.nodes.len();
        let mut i: usize = 0;
        while i < n
            invariant
                n == self.nodes@.len(),
                i <= n,
                node_index(self.nodes@, id) == node_index_from(self.nodes@, id, i as int),
            decreases n - i,
        {
            if self.nodes[i].id == id {
                return Some(i);
            }
            i = i + 1;
        }
        None
    }

    /// The node with identifier `id`, if this object holds one.
    pub fn get_node(&self, id: Id) -> (r: Option<&Node>)
        ensures
            match r {
                Some(n) => find_node(self.nodes@, id) == Some(*n) && n.id == id,
                None => find_node(self.nodes@, id).is_none() && forall|j: int|
                    0 <= j < self.nodes@.len() ==> self.nodes@[j].id != id,
            },
    {
        proof {
            lemma_node_index_from(self.nodes@, id, 0);
        }
        match self.position(id) {
            Some(i) => Some(&self.nodes[i]),
            None => None,
        }
    }

    /// The node with identifier `id`, to be edited in place.
    pub fn get_node_mut(&mut self, id: Id) -> (r: Option<&mut Node>)
        ensures
            final(self).id == old(self).id,
            match node_index(old(self).nodes@, id) {
                Some(i) => r.is_some() && *r.unwrap() == old(self).nodes@[i]
                    && final(self).nodes@ == old(self).nodes@.update(i, *final(r.unwrap())),
                None => r.is_none() && *final(self) == *old(self),
            },
    {
        match self.position(id) {
            Some(i) => Some(&mut self.nodes[i]),
            None => None,
        }
    }
}

} // verus!
