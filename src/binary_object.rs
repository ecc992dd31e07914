use vstd::prelude::*;
use crate::bin_op::BinOp as BinKind;
use crate::binary_operations::BinOp;
use crate::modifiers::Modifier;
use crate::node::CsgNode;
use crate::primitives::{node_of, prim_bound, prim_distance, Primitive};
use crate::vector::{clamp64, clamp_i64, Vec3};
use vstd::math::{max, min};
use crate::unary_op::UnaryOp;

verus! {

/// A canonical tree: every operator has exactly two operands.
#[derive(Debug)]
pub enum BinObject {
    Primitive(Primitive),
    BinaryOperation(BinOp),
    Modifier(Modifier<BinObject>),
}

/// The kind of node that a binary operator is flattened to.
pub open spec fn kind_of(op: BinOp) -> BinKind {
    match op {
        BinOp::Substraction(_) => BinKind::Diff,
        BinOp::Union(_) => BinKind::Union,
        BinOp::Intersection(_) => BinKind::Inter,
    }
}

/// The two operands of a binary operator, in order.
pub open spec fn operands(op: BinOp) -> (BinObject, BinObject) {
    match op {
        BinOp::Substraction(c) => *c.cutted_cutter,
        BinOp::Union(u) => *u.children,
        BinOp::Intersection(i) => *i.children,
    }
}

/// Number of nodes of a canonical tree.
pub open spec fn bin_size(t: BinObject) -> nat
    decreases t,
{
    match t {
        BinObject::Primitive(_) => 1,
        BinObject::BinaryOperation(op) => {
            let pair = match op {
                BinOp::Substraction(c) => *c.cutted_cutter,
                BinOp::Union(u) => *u.children,
                BinOp::Intersection(i) => *i.children,
            };
            1 + bin_size(pair.0) + bin_size(pair.1)
        },
        BinObject::Modifier(Modifier::Rounding(c, _)) => 1 + bin_size(*c),
    }
}


/// Number of levels of a canonical tree: a leaf has one.
pub open spec fn bin_height(t: BinObject) -> nat
    decreases t,
{
    match t {
        BinObject::Primitive(_) => 1,
        BinObject::BinaryOperation(op) => {
            let pair = match op {
                BinOp::Substraction(c) => *c.cutted_cutter,
                BinOp::Union(u) => *u.children,
                BinOp::Intersection(i) => *i.children,
            };
            1 + vstd::math::max(bin_height(pair.0) as int, bin_height(pair.1) as int) as nat
        },
        BinObject::Modifier(Modifier::Rounding(c, _)) => 1 + bin_height(*c),
    }
}

/// The nodes of a canonical tree in preorder: each node, then its operands' nodes in order.
pub open spec fn bin_nodes(t: BinObject) -> Seq<CsgNode>
    decreases t,
{
    match t {
        BinObject::Primitive(p) => seq![CsgNode::Primitive(node_of(p))],
        BinObject::BinaryOperation(op) => {
            let pair = match op {
                BinOp::Substraction(c) => *c.cutted_cutter,
                BinOp::Union(u) => *u.children,
                BinOp::Intersection(i) => *i.children,
            };
            seq![CsgNode::BinOp(kind_of(op))] + bin_nodes(pair.0) + bin_nodes(pair.1)
        },
        BinObject::Modifier(Modifier::Rounding(c, radius)) => seq![
            CsgNode::UnaryOp(UnaryOp::Round { radius }),
        ] + bin_nodes(*c),
    }
}

/// The leaf shapes of a canonical tree, left to right.
pub open spec fn bin_leaves(t: BinObject) -> Seq<Primitive>
    decreases t,
{
    match t {
        BinObject::Primitive(p) => seq![p],
        BinObject::BinaryOperation(op) => {
            let pair = match op {
                BinOp::Substraction(c) => *c.cutted_cutter,
                BinOp::Union(u) => *u.children,
                BinOp::Intersection(i) => *i.children,
            };
            bin_leaves(pair.0) + bin_leaves(pair.1)
        },
        BinObject::Modifier(Modifier::Rounding(c, _)) => bin_leaves(*c),
    }
}

/// Number of binary-operator nodes of a canonical tree.
pub open spec fn bin_op_count(t: BinObject) -> nat
    decreases t,
{
    match t {
        BinObject::Primitive(_) => 0,
        BinObject::BinaryOperation(op) => {
            let pair = match op {
                BinOp::Substraction(c) => *c.cutted_cutter,
                BinOp::Union(u) => *u.children,
                BinOp::Intersection(i) => *i.children,
            };
            1 + bin_op_count(pair.0) + bin_op_count(pair.1)
        },
        BinObject::Modifier(Modifier::Rounding(c, _)) => bin_op_count(*c),
    }
}

/// Signed distance from `at` to a canonical tree's solid: a union takes the
/// smaller distance, an intersection the larger, a difference the smaller of the
/// first's and the negated second's, and a rounding subtracts its radius; a
/// negation or subtraction that leaves the range of `i64` stops at its end.
pub open spec fn bin_distance(t: BinObject, at: Vec3) -> int
    decreases t,
{
    match t {
        BinObject::Primitive(p) => prim_distance(p, at),
        BinObject::BinaryOperation(op) => {
            let pair = match op {
                BinOp::Substraction(c) => *c.cutted_cutter,
                BinOp::Union(u) => *u.children,
                BinOp::Intersection(i) => *i.children,
            };
            let (l, r) = (bin_distance(pair.0, at), bin_distance(pair.1, at));
            match op {
                BinOp::Substraction(_) => min(l, clamp64(-r)),
                BinOp::Union(_) => min(l, r),
                BinOp::Intersection(_) => max(l, r),
            }
        },
        BinObject::Modifier(Modifier::Rounding(c, radius)) => clamp64(bin_distance(*c, at) - radius),
    }
}

/// Half the side of an origin-centred cube that holds a canonical tree's solid:
/// a union takes the larger bound, an intersection the smaller, a difference the
/// first operand's, and a rounding adds its radius (stopping at the ends of the
/// range of `i64`).
pub open spec fn bin_bound(t: BinObject) -> int
    decreases t,
{
    match t {
        BinObject::Primitive(p) => prim_bound(p),
        BinObject::BinaryOperation(op) => {
            let pair = match op {
                BinOp::Substraction(c) => *c.cutted_cutter,
                BinOp::Union(u) => *u.children,
                BinOp::Intersection(i) => *i.children,
            };
            match op {
                BinOp::Substraction(_) => bin_bound(pair.0),
                BinOp::Union(_) => max(bin_bound(pair.0), bin_bound(pair.1)),
                BinOp::Intersection(_) => min(bin_bound(pair.0), bin_bound(pair.1)),
            }
        },
        BinObject::Modifier(Modifier::Rounding(c, radius)) => clamp64(bin_bound(*c) + radius),
    }
}

impl BinObject {
    /// Signed distance from `at` to the solid.
    pub fn distance_function(&self, at: Vec3) -> (r: i64)
        ensures
            r == bin_distance(*self, at),
        decreases self,
    {
        match self {
            BinObject::Primitive(p) => p.distance_function(at),
            BinObject::BinaryOperation(op) => op.distance_function(at),
            BinObject::Modifier(Modifier::Rounding(c, radius)) => clamp_i64(
                c.distance_function(at) as i128 - *radius as i128,
            ),
        }
    }

    /// Half the side of an origin-centred cube that holds the solid.
    pub fn bounding_cube(&self) -> (r: i64)
        ensures
            r == bin_bound(*self),
        decreases self,
    {
        match self {
            BinObject::Primitive(p) => p.bounding_cube(),
            BinObject::BinaryOperation(op) => op.bounding_cube(),
            BinObject::Modifier(Modifier::Rounding(c, radius)) => clamp_i64(
                c.bounding_cube() as i128 + *radius as i128,
            ),
        }
    }

    /// Number of nodes of the tree.
    pub fn size(&self) -> (r: usize)
        requires
            bin_size(*self) <= usize::MAX,
        ensures
            r == bin_size(*self),
            r >= 1,
        decreases self,
    {
        match self {
            BinObject::Primitive(_) => 1,
            BinObject::BinaryOperation(op) => op.size(),
            BinObject::Modifier(Modifier::Rounding(c, _)) => 1 + c.size(),
        }
    }

    /// Number of levels of the tree: the nodes on its longest root-to-leaf path.
    pub fn height(&self) -> (r: usize)
        requires
            bin_height(*self) <= usize::MAX,
        ensures
            r == bin_height(*self),
            r >= 1,
        decreases self,
    {
        match self {
            BinObject::Primitive(_) => 1,
            BinObject::BinaryOperation(op) => op.height(),
            BinObject::Modifier(Modifier::Rounding(c, _)) => 1 + c.height(),
        }
    }

    /// Appends the nodes of the tree in preorder to `out`.
    pub fn push_nodes(&self, out: &mut Vec<CsgNode>)
        ensures
            final(out)@ == old(out)@ + bin_nodes(*self),
        decreases self,
    {
        match self {
            BinObject::Primitive(p) => {
                out.push(CsgNode::Primitive(p.node()));
            },
            BinObject::BinaryOperation(op) => op.push_nodes(out),
            BinObject::Modifier(Modifier::Rounding(c, radius)) => {
                out.push(CsgNode::UnaryOp(UnaryOp::Round { radius: *radius }));
                c.push_nodes(out);
                assert(final(out)@ =~= old(out)@ + bin_nodes(*self));
            },
        }
    }

    /// The nodes of the tree in preorder: each node, then its operands' nodes in order.
    pub fn nodes(&self) -> (r: Vec<CsgNode>)
        ensures
            r@ == bin_nodes(*self),
    {
        let mut out: Vec<CsgNode> = Vec::new();
        self.push_nodes(&mut out);
        assert(out@ =~= bin_nodes(*self));
        out
    }
}

impl BinOp {
    /// Appends the nodes of the operator's tree in preorder to `out`.
    pub fn push_nodes(&self, out: &mut Vec<CsgNode>)
        ensures
            final(out)@ == old(out)@ + bin_nodes(BinObject::BinaryOperation(*self)),
        decreases self,
    {
        out.push(CsgNode::BinOp(self.kind()));
        self.left().push_nodes(out);
        self.right().push_nodes(out);
        assert(final(out)@ =~= old(out)@ + bin_nodes(BinObject::BinaryOperation(*self)));
    }

    /// The nodes of the operator's tree in preorder.
    pub fn nodes(&self) -> (r: Vec<CsgNode>)
        ensures
            r@ == bin_nodes(BinObject::BinaryOperation(*self)),
    {
        let mut out: Vec<CsgNode> = Vec::new();
        self.push_nodes(&mut out);
        assert(out@ =~= bin_nodes(BinObject::BinaryOperation(*self)));
        out
    }

    /// Signed distance from `at` to the operator's solid.
    pub fn distance_function(&self, at: Vec3) -> (r: i64)
        ensures
            r == bin_distance(BinObject::BinaryOperation(*self), at),
        decreases self,
    {
        let l = self.left().distance_function(at);
        let r = self.right().distance_function(at);
        match self {
            BinOp::Substraction(_) => {
                let n = clamp_i64(-(r as i128));
                if l <= n {
                    l
                } else {
                    n
                }
            },
            BinOp::Union(_) => if l <= r {
                l
            } else {
                r
            },
            BinOp::Intersection(_) => if l >= r {
                l
            } else {
                r
            },
        }
    }

    /// Half the side of an origin-centred cube that holds the operator's solid.
    pub fn bounding_cube(&self) -> (r: i64)
        ensures
            r == bin_bound(BinObject::BinaryOperation(*self)),
        decreases self,
    {
        let l = self.left().bounding_cube();
        match self {
            BinOp::Substraction(_) => l,
            BinOp::Union(_) => {
                let r = self.right().bounding_cube();
                if l >= r {
                    l
                } else {
                    r
                }
            },
            BinOp::Intersection(_) => {
                let r = self.right().bounding_cube();
                if l <= r {
                    l
                } else {
                    r
                }
            },
        }
    }

    /// Number of nodes of the operator's tree.
    pub fn size(&self) -> (r: usize)
        requires
            bin_size(BinObject::BinaryOperation(*self)) <= usize::MAX,
        ensures
            r == bin_size(BinObject::BinaryOperation(*self)),
        decreases self,
    {
        let l = self.left().size();
        let r = self.right().size();
        1 + l + r
    }

    /// Number of levels of the operator's tree.
    pub fn height(&self) -> (r: usize)
        requires
            bin_height(BinObject::BinaryOperation(*self)) <= usize::MAX,
        ensures
            r == bin_height(BinObject::BinaryOperation(*self)),
        decreases self,
    {
        let l = self.left().height();
        let r = self.right().height();
        if l >= r {
            1 + l
        } else {
            1 + r
        }
    }

    /// The node kind of this operator.
    pub fn kind(&self) -> (r: BinKind)
        ensures
            r == kind_of(*self),
    {
        match self {
            BinOp::Substraction(_) => BinKind::Diff,
            BinOp::Union(_) => BinKind::Union,
            BinOp::Intersection(_) => BinKind::Inter,
        }
    }

    /// The first operand.
    pub fn left(&self) -> (r: &BinObject)
        ensures
            *r == operands(*self).0,
    {
        match self {
            BinOp::Substraction(c) => &c.cutted_cutter.0,
            BinOp::Union(u) => &u.children.0,
            BinOp::Intersection(i) => &i.children.0,
        }
    }

    /// The second operand.
    pub fn right(&self) -> (r: &BinObject)
        ensures
            *r == operands(*self).1,
    {
        match self {
            BinOp::Substraction(c) => &c.cutted_cutter.1,
            BinOp::Union(u) => &u.children.1,
            BinOp::Intersection(i) => &i.children.1,
        }
    }
}

} // verus!
