use vstd::prelude::*;
use crate::binary_object::BinObject;
use crate::object::{nary_binarize, Object};
use crate::operations::binarize_children;

verus! {

/// The union of any number of flexible trees, kept in the given order.
#[derive(Debug)]
pub struct Union {
    pub children: Vec<Object>,
}

impl Union {
    pub fn new(from: Vec<Object>) -> (r: Union)
        ensures
            r.children@ == from@,
    {
        Union { children: from }
    }

    /// The balanced canonical form: the operands are split at half their number,
    /// each half is binarized in turn, and the results are joined by a binary
    /// operator of the same kind. `None` where no operand is left.
    pub fn binarize(self) -> (r: Option<BinObject>)
        ensures
            r == nary_binarize(true, self.children@),
        decreases self,
    {
        binarize_children(true, self.children)
    }
}

} // verus!
