//! Reading a tree back from its preorder node sequence.

use vstd::prelude::*;
use crate::bin_op::BinOp as BinKind;
use crate::binary_object::{bin_height, bin_nodes, bin_size, kind_of, operands, BinObject};
use crate::binary_operations::binary_intersection::BinInter;
use crate::binary_operations::binary_union::BinUnion;
use crate::binary_operations::substraction::Cut;
use crate::binary_operations::BinOp;
use crate::modifiers::Modifier;
use crate::node::CsgNode;
use crate::primitive::Primitive as NodePrimitive;
use crate::primitives::cube::Cube;
use crate::primitives::sphere::Sphere;
use crate::primitives::{node_of, Primitive};
use crate::unary_op::UnaryOp;

verus! {

/// The leaf shape that a primitive node stands for.
pub open spec fn leaf_of(p: NodePrimitive) -> Primitive {
    match p {
        NodePrimitive::Sphere { radius, offset } => Primitive::Sphere(Sphere { center: offset, radius }),
        NodePrimitive::Cube { offset, size, rotation } => Primitive::Cube(
            Cube { position: offset, rotation, scale: size },
        ),
    }
}

/// The binary operator of kind `k` over two canonical trees.
pub open spec fn make_op(k: BinKind, a: BinObject, b: BinObject) -> BinObject {
    match k {
        BinKind::Union => BinObject::BinaryOperation(BinOp::Union(BinUnion { children: Box::new((a, b)) })),
        BinKind::Inter => BinObject::BinaryOperation(BinOp::Intersection(BinInter { children: Box::new((a, b)) })),
        BinKind::Diff => BinObject::BinaryOperation(BinOp::Substraction(Cut { cutted_cutter: Box::new((a, b)) })),
    }
}

/// The binary operator of kind `k` over two canonical trees.
pub fn make_op_exec(k: BinKind, a: BinObject, b: BinObject) -> (r: BinObject)
    ensures
        r == make_op(k, a, b),
{
    match k {
        BinKind::Union => BinObject::BinaryOperation(BinOp::Union(BinUnion::new(a, b))),
        BinKind::Inter => BinObject::BinaryOperation(BinOp::Intersection(BinInter::new(a, b))),
        BinKind::Diff => BinObject::BinaryOperation(BinOp::Substraction(Cut::new(a, b))),
    }
}

/// Reads one tree from the front of `s`: the first node, then as many subtrees as
/// its arity asks for. Gives the tree and what is left of `s`, or `None` where `s`
/// runs out first. `fuel` bounds the depth of the reading.
pub open spec fn parse(s: Seq<CsgNode>, fuel: nat) -> Option<(BinObject, Seq<CsgNode>)>
    decreases fuel,
{
    if fuel == 0 || s.len() == 0 {
        None
    } else {
        let rest = s.subrange(1, s.len() as int);
        match s[0] {
            CsgNode::Primitive(p) => Some((BinObject::Primitive(leaf_of(p)), rest)),
            CsgNode::UnaryOp(UnaryOp::Round { radius }) => match parse(rest, (fuel - 1) as nat) {
                Some((c, r)) => Some((BinObject::Modifier(Modifier::Rounding(Box::new(c), radius)), r)),
                None => None,
            },
            CsgNode::BinOp(k) => match parse(rest, (fuel - 1) as nat) {
                Some((a, r1)) => match parse(r1, (fuel - 1) as nat) {
                    Some((b, r2)) => Some((make_op(k, a, b), r2)),
                    None => None,
                },
                None => None,
            },
        }
    }
}

/// A node sequence is well formed when it is empty or is exactly the preorder of one tree.
pub open spec fn flat_wf(s: Seq<CsgNode>) -> bool {
    s.len() == 0 || (parse(s, s.len()) matches Some((_, rest)) && rest.len() == 0)
}

/// The tree of a reading of `s`.
pub open spec fn read_tree(s: Seq<CsgNode>, fuel: nat) -> BinObject {
    match parse(s, fuel) {
        Some((t, _)) => t,
        None => arbitrary(),
    }
}

/// What a reading of `s` leaves.
pub open spec fn read_rest(s: Seq<CsgNode>, fuel: nat) -> Seq<CsgNode> {
    match parse(s, fuel) {
        Some((_, r)) => r,
        None => s,
    }
}

/// The tree that a well-formed, non-empty node sequence is the preorder of.
pub open spec fn flat_tree(s: Seq<CsgNode>) -> BinObject {
    read_tree(s, s.len())
}

/// Reading the preorder of a tree, followed by anything, gives the tree back and
/// leaves what followed, whenever the fuel is at least the tree's size.
pub proof fn lemma_parse_nodes(t: BinObject, rest: Seq<CsgNode>, fuel: nat)
    requires
        fuel >= bin_size(t),
    ensures
        parse(bin_nodes(t) + rest, fuel) == Some((t, rest)),
    decreases t,
{
    let s = bin_nodes(t) + rest;
    assert(s[0] == bin_nodes(t)[0]);
    match t {
        BinObject::Primitive(p) => {
            assert(s.subrange(1, s.len() as int) =~= rest);
            assert(leaf_of(node_of(p)) == p);
        },
        BinObject::BinaryOperation(op) => {
            let (a, b) = operands(op);
            lemma_parse_nodes(a, bin_nodes(b) + rest, (fuel - 1) as nat);
            lemma_parse_nodes(b, rest, (fuel - 1) as nat);
            assert(s.subrange(1, s.len() as int) =~= bin_nodes(a) + (bin_nodes(b) + rest));
            assert(make_op(kind_of(op), a, b) == t);
        },
        BinObject::Modifier(Modifier::Rounding(c, _)) => {
            lemma_parse_nodes(*c, rest, (fuel - 1) as nat);
            assert(s.subrange(1, s.len() as int) =~= bin_nodes(*c) + rest);
        },
    }
}

/// The preorder of any tree is well formed, and reads back as that tree.
pub proof fn lemma_nodes_wf(t: BinObject)
    ensures
        flat_wf(bin_nodes(t)),
        bin_nodes(t).len() > 0,
        flat_tree(bin_nodes(t)) == t,
{
    crate::laws::lemma_nodes_len(t);
    crate::laws::lemma_bin_positive(t);
    lemma_parse_nodes(t, Seq::empty(), bin_nodes(t).len());
    assert(bin_nodes(t) + Seq::<CsgNode>::empty() =~= bin_nodes(t));
}

/// What a successful reading leaves is a suffix of what it read, and the tree
/// read has at most as many levels as nodes were read.
pub proof fn lemma_parse_consumes(s: Seq<CsgNode>, fuel: nat)
    requires
        parse(s, fuel) is Some,
    ensures
        read_rest(s, fuel) == s.subrange(s.len() - read_rest(s, fuel).len(), s.len() as int),
        read_rest(s, fuel).len() < s.len(),
        bin_height(read_tree(s, fuel)) <= s.len() - read_rest(s, fuel).len(),
        bin_height(read_tree(s, fuel)) <= fuel,
    decreases fuel,
{
    let rest = s.subrange(1, s.len() as int);
    match s[0] {
        CsgNode::Primitive(_) => {},
        CsgNode::UnaryOp(_) => {
            lemma_parse_consumes(rest, (fuel - 1) as nat);
        },
        CsgNode::BinOp(_) => {
            lemma_parse_consumes(rest, (fuel - 1) as nat);
            let r1 = read_rest(rest, (fuel - 1) as nat);
            lemma_parse_consumes(r1, (fuel - 1) as nat);
        },
    }
}

} // verus!
