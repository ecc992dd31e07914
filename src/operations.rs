pub mod intersection;
pub mod union;

use vstd::prelude::*;
use crate::binary_object::BinObject;
use crate::binary_operations::binary_intersection::BinInter;
use crate::binary_operations::binary_union::BinUnion;
use crate::binary_operations::BinOp;
use crate::object::{
    children_bound, children_distance, children_height, children_size, combine, join, nary_binarize, obj_binarize,
    obj_bound, obj_distance, obj_height, obj_size, Object,
};
use crate::vector::Vec3;
use self::intersection::Inter;
use self::union::Union;

verus! {

/// An operator over any number of flexible operands.
#[derive(Debug)]
pub enum Op {
    Union(Union),
    Intersection(Inter),
}

impl Op {
    /// Number of nodes of the operator's tree.
    pub fn size(&self) -> (r: usize)
        requires
            obj_size(Object::Operation(*self)) <= usize::MAX,
        ensures
            r == obj_size(Object::Operation(*self)),
        decreases self,
    {
        match self {
            Op::Union(u) => 1 + children_size(&u.children),
            Op::Intersection(i) => 1 + children_size(&i.children),
        }
    }

    /// Number of levels of the operator's tree.
    pub fn height(&self) -> (r: usize)
        requires
            obj_height(Object::Operation(*self)) <= usize::MAX,
        ensures
            r == obj_height(Object::Operation(*self)),
        decreases self,
    {
        match self {
            Op::Union(u) => 1 + children_height(&u.children),
            Op::Intersection(i) => 1 + children_height(&i.children),
        }
    }

    /// Signed distance from `at` to the operator's solid.
    pub fn distance_function(&self, at: Vec3) -> (r: i64)
        ensures
            r == obj_distance(Object::Operation(*self), at),
        decreases self,
    {
        match self {
            Op::Union(u) => children_distance(true, &u.children, at),
            Op::Intersection(i) => children_distance(false, &i.children, at),
        }
    }

    /// Half the side of an origin-centred cube that holds the operator's solid.
    pub fn bounding_cube(&self) -> (r: i64)
        ensures
            r == obj_bound(Object::Operation(*self)),
        decreases self,
    {
        match self {
            Op::Union(u) => children_bound(true, &u.children),
            Op::Intersection(i) => children_bound(false, &i.children),
        }
    }

    /// The balanced canonical form of the operator, or `None` where it has no operand left.
    pub fn binarize(self) -> (r: Option<BinObject>)
        ensures
            r == obj_binarize(Object::Operation(self)),
        decreases self,
    {
        match self {
            Op::Union(u) => u.binarize(),
            Op::Intersection(i) => i.binarize(),
        }
    }
}

/// The binary operator of the given kind over two canonical trees.
fn join_exec(union: bool, left: BinObject, right: BinObject) -> (r: BinObject)
    ensures
        r == join(union, left, right),
{
    if union {
        BinObject::BinaryOperation(BinOp::Union(BinUnion::new(left, right)))
    } else {
        BinObject::BinaryOperation(BinOp::Intersection(BinInter::new(left, right)))
    }
}

/// Binarizes a union (or an intersection) over `children`: the list is cut at half
/// its length, each half is binarized as an operator of the same kind, and the two
/// results are joined; an absent half is dropped.
pub(crate) fn binarize_children(union: bool, children: Vec<Object>) -> (r: Option<BinObject>)
    ensures
        r == nary_binarize(union, children@),
    decreases children@,
{
    let ghost s = children@;
    let mut first = children;
    let n = first.len();
    if n == 0 {
        None
    } else if n == 1 {
        match first.pop() {
            Some(only) => only.binarize(),
            None => None,
        }
    } else {
        let mid = n / 2;
        let second = first.split_off(mid);
        let left = binarize_children(union, first);
        let right = binarize_children(union, second);
        let r = match (left, right) {
            (Some(l), Some(r)) => Some(join_exec(union, l, r)),
            (Some(l), None) => Some(l),
            (None, Some(r)) => Some(r),
            (None, None) => None,
        };
        assert(r == combine(union, nary_binarize(union, s.subrange(0, mid as int)), nary_binarize(union, s.subrange(mid as int, n as int))));
        r
    }
}

} // verus!
