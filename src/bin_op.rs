use vstd::prelude::*;

verus! {

/// The kind of a two-child node of the flattened tree.
#[derive(Clone, Copy, Debug, PartialEq, Eq, Structural)]
pub enum BinOp {
    Union,
    Inter,
    Diff,
}

/// Number of variants of `BinOp`.
pub const BIN_OP_VAR_COUNT: u32 = 3;

impl BinOp {
    pub open spec fn spec_id(&self) -> u32 {
        match self {
            BinOp::Union => 0,
            BinOp::Inter => 1,
            BinOp::Diff => 2,
        }
    }

    /// The index of this variant among the variants of `BinOp`.
    pub fn id(&self) -> (r: u32)
        ensures
            r == self.spec_id(),
            r < BIN_OP_VAR_COUNT,
    {
        match self {
            BinOp::Union => 0,
            BinOp::Inter => 1,
            BinOp::Diff => 2,
        }
    }
}

} // verus!
