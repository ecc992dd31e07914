use vstd::prelude::*;
use crate::binary_object::BinObject;
use crate::object::{nary_binarize, Object};
use crate::operations::binarize_children;

verus! {

/// The intersection of any number of flexible trees, kept in the given order.
#[derive(Debug)]
pub struct Inter {
    pub children: Vec<Object>,
}

impl Inter {
    pub fn new(from: Vec<Object>) -> (r: Inter)
        ensures
            r.children@ == from@,
    {
        Inter { children: from }
    }

    /// The balanced canonical form: the operands are split at half their number,
    /// each half is binarized in turn, and the results are joined by a binary
    /// operator of the same kind. `None` where no operand is left.
    pub fn binarize(self) -> (r: Option<BinObject>)
        ensures
            r == nary_binarize(false, self.children@),
        decreases self,
    {
        binarize_children(false, self.children)
    }
}

} // verus!
