use vstd::prelude::*;
use crate::bin_op::{BinOp, BIN_OP_VAR_COUNT};
use crate::primitive::{Primitive, PRIMITIVE_VAR_COUNT};
use crate::unary_op::{UnaryOp, UNARY_OP_VAR_COUNT};

verus! {

/// One position of a tree in preorder, with its local payload only.
#[derive(Clone, Copy, Debug, PartialEq, Eq, Structural)]
pub enum CsgNode {
    Primitive(Primitive),
    UnaryOp(UnaryOp),
    BinOp(BinOp),
}

impl CsgNode {
    /// How many subtrees follow this node in preorder.
    pub open spec fn arity(&self) -> nat {
        match self {
            CsgNode::Primitive(_) => 0,
            CsgNode::UnaryOp(_) => 1,
            CsgNode::BinOp(_) => 2,
        }
    }

    pub open spec fn spec_id(&self) -> u32 {
        match self {
            CsgNode::Primitive(p) => p.spec_id(),
            CsgNode::UnaryOp(u) => (PRIMITIVE_VAR_COUNT + u.spec_id()) as u32,
            CsgNode::BinOp(b) => (PRIMITIVE_VAR_COUNT + UNARY_OP_VAR_COUNT + b.spec_id()) as u32,
        }
    }

    /// A number that tells all node kinds apart: primitives first, then
    /// unary, then binary operators.
    pub fn id(&self) -> (r: u32)
        ensures
            r == self.spec_id(),
            r < PRIMITIVE_VAR_COUNT + UNARY_OP_VAR_COUNT + BIN_OP_VAR_COUNT,
    {
        match self {
            CsgNode::Primitive(p) => p.id(),
            CsgNode::UnaryOp(u) => PRIMITIVE_VAR_COUNT + u.id(),
            CsgNode::BinOp(b) => PRIMITIVE_VAR_COUNT + UNARY_OP_VAR_COUNT + b.id(),
        }
    }

    /// The number of subtrees that follow this node in preorder.
    pub fn child_count(&self) -> (r: usize)
        ensures
            r == self.arity(),
    {
        match self {
            CsgNode::Primitive(_) => 0,
            CsgNode::UnaryOp(_) => 1,
            CsgNode::BinOp(_) => 2,
        }
    }
}

} // verus!
