use vstd::prelude::*;
use crate::binary_object::BinObject;

verus! {

/// The union of two canonical trees.
#[derive(Debug)]
pub struct BinUnion {
    pub children: Box<(BinObject, BinObject)>,
}

impl BinUnion {
    pub fn new(left: BinObject, right: BinObject) -> (r: BinUnion)
        ensures
            r.children.0 == left,
            r.children.1 == right,
    {
        BinUnion { children: Box::new((left, right)) }
    }
}

} // verus!
