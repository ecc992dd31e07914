pub mod binary_intersection;
pub mod binary_union;
pub mod substraction;

use vstd::prelude::*;
use self::binary_intersection::BinInter;
use self::binary_union::BinUnion;
use self::substraction::Cut;

verus! {

/// A boolean operator with exactly two canonical operands.
#[derive(Debug)]
pub enum BinOp {
    Substraction(Cut),
    Union(BinUnion),
    Intersection(BinInter),
}

} // verus!
