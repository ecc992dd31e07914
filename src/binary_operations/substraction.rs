use vstd::prelude::*;
use crate::binary_object::BinObject;

verus! {

/// The first canonical tree with the second one cut out of it.
#[derive(Debug)]
pub struct Cut {
    pub cutted_cutter: Box<(BinObject, BinObject)>,
}

impl Cut {
    pub fn new(cutted: BinObject, cutter: BinObject) -> (r: Cut)
        ensures
            r.cutted_cutter.0 == cutted,
            r.cutted_cutter.1 == cutter,
    {
        Cut { cutted_cutter: Box::new((cutted, cutter)) }
    }
}

} // verus!
