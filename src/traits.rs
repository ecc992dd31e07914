//! The queries that every kind of tree answers.

use vstd::prelude::*;
use crate::binary_object::{bin_bound, bin_distance, bin_height, bin_nodes, bin_size, BinObject};
use crate::node::CsgNode;
use crate::object::{obj_binarize, obj_bound, obj_distance, obj_height, obj_size, Object};
use crate::vector::Vec3;

verus! {

/// Number of nodes of a tree.
pub trait TreeSize {
    spec fn tree_size(&self) -> nat;

    fn size(&self) -> (r: usize)
        requires
            self.tree_size() <= usize::MAX,
        ensures
            r == self.tree_size(),
            r >= 1;
}

/// Number of levels of a tree: the nodes on its longest root-to-leaf path.
pub trait TreeHeight {
    spec fn tree_height(&self) -> nat;

    fn height(&self) -> (r: usize)
        requires
            self.tree_height() <= usize::MAX,
        ensures
            r == self.tree_height(),
            r >= 1;
}

/// Signed distance from a point to a tree's solid.
pub trait DistanceFunc {
    spec fn distance(&self, at: Vec3) -> int;

    fn distance_function(&self, at: Vec3) -> (r: i64)
        ensures
            r == self.distance(at);
}

/// Half the side of an origin-centred cube that holds a tree's solid.
pub trait BoundingCube {
    spec fn bound(&self) -> int;

    fn bounding_cube(&self) -> (r: i64)
        ensures
            r == self.bound();
}

/// The balanced canonical form of a tree.
pub trait BinarizeCsgTree: Sized {
    spec fn canonical(self) -> Option<BinObject>;

    fn binarize(self) -> (r: Option<BinObject>)
        ensures
            r == self.canonical();
}

/// The nodes of a tree in preorder: each node, then its operands' nodes in order.
pub trait NodeIter {
    spec fn preorder(&self) -> Seq<CsgNode>;

    fn nodes(&self) -> (r: Vec<CsgNode>)
        ensures
            r@ == self.preorder();
}

/// Everything that every tree answers.
pub trait CsgTrait: DistanceFunc + BinarizeCsgTree + TreeSize + TreeHeight + BoundingCube {}

/// Everything that a canonical tree answers.
pub trait CsgBinTrait: CsgTrait + NodeIter {}

impl TreeSize for BinObject {
    open spec fn tree_size(&self) -> nat {
        bin_size(*self)
    }

    fn size(&self) -> (r: usize) {
        proof {
            crate::laws::lemma_bin_positive(*self);
        }
        BinObject::size(self)
    }
}

impl TreeHeight for BinObject {
    open spec fn tree_height(&self) -> nat {
        bin_height(*self)
    }

    fn height(&self) -> (r: usize) {
        proof {
            crate::laws::lemma_bin_positive(*self);
        }
        BinObject::height(self)
    }
}

impl DistanceFunc for BinObject {
    open spec fn distance(&self, at: Vec3) -> int {
        bin_distance(*self, at)
    }

    fn distance_function(&self, at: Vec3) -> (r: i64) {
        BinObject::distance_function(self, at)
    }
}

impl BoundingCube for BinObject {
    open spec fn bound(&self) -> int {
        bin_bound(*self)
    }

    fn bounding_cube(&self) -> (r: i64) {
        BinObject::bounding_cube(self)
    }
}

impl BinarizeCsgTree for BinObject {
    open spec fn canonical(self) -> Option<BinObject> {
        Some(self)
    }

    fn binarize(self) -> (r: Option<BinObject>) {
        Some(self)
    }
}

impl NodeIter for BinObject {
    open spec fn preorder(&self) -> Seq<CsgNode> {
        bin_nodes(*self)
    }

    fn nodes(&self) -> (r: Vec<CsgNode>) {
        BinObject::nodes(self)
    }
}

impl CsgTrait for BinObject {}

impl CsgBinTrait for BinObject {}

impl TreeSize for Object {
    open spec fn tree_size(&self) -> nat {
        obj_size(*self)
    }

    fn size(&self) -> (r: usize) {
        proof {
            crate::laws::lemma_size_height_positive(*self);
        }
        Object::size(self)
    }
}

impl TreeHeight for Object {
    open spec fn tree_height(&self) -> nat {
        obj_height(*self)
    }

    fn height(&self) -> (r: usize) {
        proof {
            crate::laws::lemma_size_height_positive(*self);
        }
        Object::height(self)
    }
}

impl DistanceFunc for Object {
    open spec fn distance(&self, at: Vec3) -> int {
        obj_distance(*self, at)
    }

    fn distance_function(&self, at: Vec3) -> (r: i64) {
        Object::distance_function(self, at)
    }
}

impl BoundingCube for Object {
    open spec fn bound(&self) -> int {
        obj_bound(*self)
    }

    fn bounding_cube(&self) -> (r: i64) {
        Object::bounding_cube(self)
    }
}

impl BinarizeCsgTree for Object {
    open spec fn canonical(self) -> Option<BinObject> {
        obj_binarize(self)
    }

    fn binarize(self) -> (r: Option<BinObject>) {
        Object::binarize(self)
    }
}

impl CsgTrait for Object {}

} // verus!
