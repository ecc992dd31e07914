use vstd::prelude::*;

verus! {

/// The kind of a one-child node of the flattened tree.
#[derive(Clone, Copy, Debug, PartialEq, Eq, Structural)]
pub enum UnaryOp {
    Round { radius: i32 },
}

/// Number of variants of `UnaryOp`.
pub const UNARY_OP_VAR_COUNT: u32 = 1;

impl UnaryOp {
    pub open spec fn spec_id(&self) -> u32 {
        match self {
            UnaryOp::Round { .. } => 0,
        }
    }

    /// The index of this variant among the variants of `UnaryOp`.
    pub fn id(&self) -> (r: u32)
        ensures
            r == self.spec_id(),
            r < UNARY_OP_VAR_COUNT,
    {
        match self {
            UnaryOp::Round { .. } => 0,
        }
    }
}

} // verus!
