use vstd::prelude::*;
use crate::binary_object::BinObject;

verus! {

/// The intersection of two canonical trees.
#[derive(Debug)]
pub struct BinInter {
    pub children: Box<(BinObject, BinObject)>,
}

impl BinInter {
    pub fn new(left: BinObject, right: BinObject) -> (r: BinInter)
        ensures
            r.children.0 == left,
            r.children.1 == right,
    {
        BinInter { children: Box::new((left, right)) }
    }
}

} // verus!
