//! Laws that relate the queries and the binarization of trees.

use vstd::prelude::*;
use vstd::arithmetic::power2::pow2;
use crate::binary_object::{bin_height, bin_leaves, bin_nodes, bin_op_count, bin_size, operands, BinObject};
use crate::binary_operations::BinOp;
use crate::modifiers::Modifier;
use crate::object::{
    combine, lemma_seq_leaves_split, nary_binarize, obj_binarize, obj_height, obj_leaves, obj_of, obj_size,
    seq_leaves, seq_size, Object,
};
use crate::operations::Op;

verus! {

/// The number of levels needed to hold `k` leaves in a balanced binary tree,
/// counted in edges: zero for one leaf, and otherwise one more than for the
/// larger half.
pub open spec fn ceil_log2(k: nat) -> nat
    decreases k,
{
    if k <= 1 {
        0
    } else {
        1 + ceil_log2(((k + 1) / 2) as nat)
    }
}

/// `ceil_log2(k)` is the least exponent `e` with `2^e >= k`.
pub proof fn lemma_ceil_log2_bounds(k: nat)
    requires
        k >= 1,
    ensures
        pow2(ceil_log2(k)) >= k,
        k == 1 || pow2((ceil_log2(k) - 1) as nat) < k,
    decreases k,
{
    vstd::arithmetic::power2::lemma2_to64();
    if k > 1 {
        let h = ((k + 1) / 2) as nat;
        lemma_ceil_log2_bounds(h);
        vstd::arithmetic::power2::lemma_pow2_unfold(ceil_log2(k));
        if h > 1 {
            vstd::arithmetic::power2::lemma_pow2_unfold(ceil_log2(h));
        }
    }
}

/// `ceil_log2` never decreases.
pub proof fn lemma_ceil_log2_monotone(a: nat, b: nat)
    requires
        1 <= a <= b,
    ensures
        ceil_log2(a) <= ceil_log2(b),
    decreases b,
{
    if a > 1 {
        lemma_ceil_log2_monotone(((a + 1) / 2) as nat, ((b + 1) / 2) as nat);
    }
}

/// Every canonical tree has at least one node, one level and one leaf.
pub proof fn lemma_bin_positive(t: BinObject)
    ensures
        bin_size(t) >= 1,
        bin_height(t) >= 1,
        bin_leaves(t).len() >= 1,
    decreases t,
{
    match t {
        BinObject::Primitive(_) => {},
        BinObject::BinaryOperation(op) => {
            lemma_bin_positive(operands(op).0);
            lemma_bin_positive(operands(op).1);
        },
        BinObject::Modifier(Modifier::Rounding(c, _)) => {
            lemma_bin_positive(*c);
        },
    }
}

/// Every flexible tree has at least one node and at least one level.
pub proof fn lemma_size_height_positive(t: Object)
    ensures
        obj_size(t) >= 1,
        obj_height(t) >= 1,
{
    if let Object::BinaryOperation(op) = t {
        lemma_bin_positive(BinObject::BinaryOperation(op));
    }
}

/// The size of an operator is one more than the sum of its operands' sizes.
pub proof fn lemma_operator_size(t: Object)
    ensures
        t matches Object::Operation(Op::Union(u)) ==> obj_size(t) == 1 + seq_size(u.children@),
        t matches Object::Operation(Op::Intersection(i)) ==> obj_size(t) == 1 + seq_size(i.children@),
        t matches Object::BinaryOperation(op) ==> obj_size(t) == 1 + bin_size(operands(op).0) + bin_size(operands(op).1),
{
}

/// The size of a binary operator is one more than the sum of its operands' sizes.
pub proof fn lemma_bin_operator_size(op: BinOp)
    ensures
        bin_size(BinObject::BinaryOperation(op)) == 1 + bin_size(operands(op).0) + bin_size(operands(op).1),
{
}

/// Binarizing keeps the leaves, in order (and so as a multiset); it gives `None`
/// exactly when there are none.
pub proof fn lemma_binarize_leaves(t: Object)
    ensures
        obj_binarize(t) is None <==> obj_leaves(t).len() == 0,
        obj_binarize(t) matches Some(b) ==> bin_leaves(b) == obj_leaves(t),
        obj_binarize(t) matches Some(b) ==> bin_leaves(b).to_multiset() == obj_leaves(t).to_multiset(),
    decreases t,
{
    match t {
        Object::Primitive(_) => {},
        Object::Operation(Op::Union(u)) => lemma_nary_leaves(true, u.children@),
        Object::Operation(Op::Intersection(i)) => lemma_nary_leaves(false, i.children@),
        Object::BinaryOperation(op) => lemma_bin_positive(BinObject::BinaryOperation(op)),
        Object::Modifier(Modifier::Rounding(c, _)) => lemma_binarize_leaves(*c),
    }
}

/// The balanced binarization of a list keeps its leaves, in order; it gives
/// `None` exactly when there are none.
pub proof fn lemma_nary_leaves(union: bool, s: Seq<Object>)
    ensures
        nary_binarize(union, s) is None <==> seq_leaves(s).len() == 0,
        nary_binarize(union, s) matches Some(b) ==> bin_leaves(b) == seq_leaves(s),
    decreases s,
{
    if s.len() == 0 {
    } else if s.len() == 1 {
        lemma_binarize_leaves(s[0]);
        assert(s.subrange(0, 0) =~= Seq::<Object>::empty());
        assert(seq_leaves(s.subrange(0, 0)) =~= Seq::<crate::primitives::Primitive>::empty());
        assert(seq_leaves(s) =~= obj_leaves(s[0]));
    } else {
        let mid = (s.len() / 2) as int;
        let left = s.subrange(0, mid);
        let right = s.subrange(mid, s.len() as int);
        lemma_nary_leaves(union, left);
        lemma_nary_leaves(union, right);
        lemma_seq_leaves_split(s, mid);
        if let Some(l) = nary_binarize(union, left) {
            lemma_bin_positive(l);
        }
        if let Some(r) = nary_binarize(union, right) {
            lemma_bin_positive(r);
        }
        assert(seq_leaves(left) + Seq::<crate::primitives::Primitive>::empty() =~= seq_leaves(left));
        assert(Seq::<crate::primitives::Primitive>::empty() + seq_leaves(right) =~= seq_leaves(right));
    }
}

/// Binarizing a canonical tree, taken as a flexible tree, gives the same tree back,
/// and so the same nodes.
pub proof fn lemma_binarize_idempotent(b: BinObject)
    ensures
        obj_binarize(obj_of(b)) == Some(b),
        bin_nodes(obj_binarize(obj_of(b))->0) == bin_nodes(b),
    decreases b,
{
    if let BinObject::Modifier(Modifier::Rounding(c, _)) = b {
        lemma_binarize_idempotent(*c);
    }
}

/// An operator over `k >= 1` leaf shapes binarizes to a balanced tree of
/// `ceil_log2(k) + 1` levels with `k - 1` binary operators.
pub proof fn lemma_balance(union: bool, s: Seq<Object>)
    requires
        s.len() >= 1,
        forall|i: int| 0 <= i < s.len() ==> s[i] is Primitive,
    ensures
        nary_binarize(union, s) is Some,
        bin_height(nary_binarize(union, s)->0) == ceil_log2(s.len()) + 1,
        bin_op_count(nary_binarize(union, s)->0) == s.len() - 1,
    decreases s,
{
    if s.len() == 1 {
        let p = s[0]->Primitive_0;
        assert(obj_binarize(s[0]) == Some(BinObject::Primitive(p)));
        assert(nary_binarize(union, s) == obj_binarize(s[0]));
    } else {
        let k = s.len();
        let mid = (k / 2) as int;
        let left = s.subrange(0, mid);
        let right = s.subrange(mid, k as int);
        assert(left.len() == k / 2 && right.len() == (k + 1) / 2);
        assert forall|i: int| 0 <= i < left.len() implies left[i] is Primitive by {
            assert(left[i] == s[i]);
        }
        assert forall|i: int| 0 <= i < right.len() implies right[i] is Primitive by {
            assert(right[i] == s[i + mid]);
        }
        lemma_balance(union, left);
        lemma_balance(union, right);
        lemma_ceil_log2_monotone(left.len(), right.len());
        assert(ceil_log2(k) == 1 + ceil_log2(right.len()));
        assert(nary_binarize(union, s) == combine(union, nary_binarize(union, left), nary_binarize(union, right)));
    }
}

/// The node enumeration of a canonical tree has exactly as many nodes as the tree.
pub proof fn lemma_nodes_len(t: BinObject)
    ensures
        bin_nodes(t).len() == bin_size(t),
    decreases t,
{
    match t {
        BinObject::Primitive(_) => {},
        BinObject::BinaryOperation(op) => {
            lemma_nodes_len(operands(op).0);
            lemma_nodes_len(operands(op).1);
        },
        BinObject::Modifier(Modifier::Rounding(c, _)) => {
            lemma_nodes_len(*c);
        },
    }
}

} // verus!
