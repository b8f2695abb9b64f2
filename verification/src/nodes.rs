//! Finding forums in the loaded tree.

use vstd::prelude::*;

use crate::models::Node;
use crate::search::{first_where, lemma_searched};
use crate::text::same_text;

verus! {

/// A description of a node.
#[derive(Clone, Copy)]
pub enum NodeWanted {
    Id(u32),
    /// A forum, as opposed to a category, a link or a page.
    Forum,
    /// A forum that stands under the node of this id and depth, or deeper.
    ForumUnder(u32, u32),
}

pub open spec fn node_fits(w: NodeWanted, n: Node) -> bool {
    match w {
        NodeWanted::Id(id) => n.node_id == id,
        NodeWanted::Forum => n.node_type@ == "Forum"@,
        NodeWanted::ForumUnder(id, depth) => (n.parent_node_id == id || n.depth > depth)
            && n.node_type@ == "Forum"@,
    }
}

pub open spec fn fitting(w: NodeWanted) -> spec_fn(Node) -> bool {
    |n: Node| node_fits(w, n)
}

/// The first node that fits.
pub open spec fn first_node(nodes: Seq<Node>, w: NodeWanted) -> Option<int> {
    first_where(nodes, fitting(w))
}

impl Node {
    fn fits(&self, w: NodeWanted) -> (r: bool)
        ensures
            r == node_fits(w, *self),
    {
        match w {
            NodeWanted::Id(id) => self.node_id == id,
            NodeWanted::Forum => same_text(self.node_type.as_str(), "Forum"),
            NodeWanted::ForumUnder(id, depth) => (self.parent_node_id == id || self.depth > depth)
                && same_text(self.node_type.as_str(), "Forum"),
        }
    }
}

/// Find the first node that fits.
pub fn find_node(nodes: &Vec<Node>, w: NodeWanted) -> (r: Option<usize>)
    ensures
        match r {
            Some(i) => i < nodes.len() && first_node(nodes@, w) == Some(i as int),
            None => first_node(nodes@, w) is None,
        },
{
    let mut i: usize = 0;
    while i < nodes.len()
        invariant
            i <= nodes.len(),
            forall|j: int| 0 <= j < i ==> !fitting(w)(#[trigger] nodes@[j]),
        decreases nodes.len() - i,
    {
        if nodes[i].fits(w) {
            proof {
                lemma_searched(nodes@, fitting(w), i as int);
            }
            return Some(i);
        }
        i += 1;
    }
    proof {
        lemma_searched(nodes@, fitting(w), i as int);
    }
    None
}

} // verus!
