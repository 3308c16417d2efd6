//! Paths from the root of an expression to one of its nodes,
//! as a snoc-list of edges that borrows its prefix.

use vstd::prelude::*;

verus! {

#[derive(Debug, Clone, Copy)]
pub enum NodePath<'a> {
    Nil,
    Snoc(&'a NodePath<'a>, NodeEdge),
}

/// The index of a child among the children of a node.
#[derive(Debug, Clone, Copy, PartialEq, Eq, Structural)]
pub struct NodeEdge(pub usize);

/// Child indices of each kind of node, to be wrapped in a [`NodeEdge`].
pub const IND_INDEX_TYPES: usize = 0;
pub const IND_VCON_DEFS: usize = 1;

pub const VCON_DEF_PARAM_TYPES: usize = 0;
pub const VCON_DEF_INDEX_ARGS: usize = 1;

pub const VCON_IND: usize = 0;

pub const MATCH_MATCHEE: usize = 0;
pub const MATCH_RETURN_TYPE: usize = 1;
pub const MATCH_CASES: usize = 2;

pub const MATCH_CASE_RETURN_VAL: usize = 0;

pub const FUN_PARAM_TYPES: usize = 0;
pub const FUN_RETURN_TYPE: usize = 1;
pub const FUN_RETURN_VAL: usize = 2;

pub const APP_CALLEE: usize = 0;
pub const APP_ARGS: usize = 1;

pub const FOR_PARAM_TYPES: usize = 0;
pub const FOR_RETURN_TYPE: usize = 1;

impl<'a> NodePath<'a> {
    /// The edges of the path, from the root outwards.
    pub open spec fn edges(&self) -> Seq<NodeEdge>
        decreases *self,
    {
        match *self {
            NodePath::Nil => Seq::empty(),
            NodePath::Snoc(rdc, rac) => rdc.edges().push(rac),
        }
    }

    pub fn singleton(edge: NodeEdge) -> (res: NodePath<'static>)
        ensures
            res.edges() == seq![edge],
    {
        let res = NodePath::Snoc(&NodePath::Nil, edge);
        proof {
            let nil = NodePath::Nil;
            assert(nil.edges() == Seq::<NodeEdge>::empty());
            assert(res.edges() =~= seq![edge]);
        }
        res
    }

    pub fn len(&self) -> (res: usize)
        requires
            self.edges().len() <= usize::MAX,
        ensures
            res == self.edges().len(),
            res == 0 <==> *self is Nil,
        decreases *self,
    {
        match self {
            NodePath::Nil => 0,
            NodePath::Snoc(rdc, _) => 1 + rdc.len(),
        }
    }

    /// Whether the path has no edges. The answer depends on the outermost node only,
    /// so no bound on the length is needed.
    pub fn is_empty(&self) -> (res: bool)
        ensures
            res == (self.edges().len() == 0),
            res == (*self is Nil),
    {
        match self {
            NodePath::Nil => true,
            NodePath::Snoc(rdc, rac) => {
                assert(self.edges().len() == rdc.edges().len() + 1);
                false
            },
        }
    }

    pub fn to_vec(&self) -> (res: Vec<NodeEdge>)
        ensures
            res@ == self.edges(),
        decreases *self,
    {
        match self {
            NodePath::Nil => Vec::new(),
            NodePath::Snoc(rdc, rac) => {
                let mut vec = rdc.to_vec();
                vec.push(*rac);
                vec
            },
        }
    }
}

} // verus!
