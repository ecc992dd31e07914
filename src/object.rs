use vstd::prelude::*;
use crate::binary_object::{bin_bound, bin_distance, bin_leaves, BinObject};
use crate::primitives::{prim_bound, prim_distance};
use crate::vector::{clamp64, clamp_i64, Vec3};
use vstd::math::{max, min};
use crate::binary_operations::binary_intersection::BinInter;
use crate::binary_operations::binary_union::BinUnion;
use crate::binary_operations::BinOp;
use crate::modifiers::Modifier;
use crate::operations::intersection::Inter;
use crate::operations::union::Union;
use crate::operations::Op;
use crate::primitives::Primitive;

verus! {

/// A flexible tree: operators may have any number of operands.
#[derive(Debug)]
pub enum Object {
    Primitive(Primitive),
    Operation(Op),
    BinaryOperation(BinOp),
    Modifier(Modifier<Object>),
}

/// Number of nodes of a flexible tree.
pub open spec fn obj_size(t: Object) -> nat
    decreases t,
{
    match t {
        Object::Primitive(_) => 1,
        Object::Operation(Op::Union(u)) => 1 + seq_size(u.children@),
        Object::Operation(Op::Intersection(i)) => 1 + seq_size(i.children@),
        Object::BinaryOperation(op) => crate::binary_object::bin_size(BinObject::BinaryOperation(op)),
        Object::Modifier(Modifier::Rounding(c, _)) => 1 + obj_size(*c),
    }
}

/// Total number of nodes of a list of flexible trees.
pub open spec fn seq_size(s: Seq<Object>) -> nat
    decreases s,
{
    if s.len() == 0 {
        0
    } else {
        seq_size(s.subrange(0, s.len() - 1)) + obj_size(s[s.len() - 1])
    }
}


/// Number of levels of a flexible tree: a leaf has one, an operator one more than its highest operand.
pub open spec fn obj_height(t: Object) -> nat
    decreases t,
{
    match t {
        Object::Primitive(_) => 1,
        Object::Operation(Op::Union(u)) => 1 + seq_height(u.children@),
        Object::Operation(Op::Intersection(i)) => 1 + seq_height(i.children@),
        Object::BinaryOperation(op) => crate::binary_object::bin_height(BinObject::BinaryOperation(op)),
        Object::Modifier(Modifier::Rounding(c, _)) => 1 + obj_height(*c),
    }
}

/// The greatest height in a list of flexible trees; zero for an empty list.
pub open spec fn seq_height(s: Seq<Object>) -> nat
    decreases s,
{
    if s.len() == 0 {
        0
    } else {
        vstd::math::max(seq_height(s.subrange(0, s.len() - 1)) as int, obj_height(s[s.len() - 1]) as int) as nat
    }
}

/// The leaf shapes of a flexible tree, left to right.
pub open spec fn obj_leaves(t: Object) -> Seq<Primitive>
    decreases t,
{
    match t {
        Object::Primitive(p) => seq![p],
        Object::Operation(Op::Union(u)) => seq_leaves(u.children@),
        Object::Operation(Op::Intersection(i)) => seq_leaves(i.children@),
        Object::BinaryOperation(op) => bin_leaves(BinObject::BinaryOperation(op)),
        Object::Modifier(Modifier::Rounding(c, _)) => obj_leaves(*c),
    }
}

/// The leaf shapes of a list of flexible trees, left to right.
pub open spec fn seq_leaves(s: Seq<Object>) -> Seq<Primitive>
    decreases s,
{
    if s.len() == 0 {
        Seq::empty()
    } else {
        seq_leaves(s.subrange(0, s.len() - 1)) + obj_leaves(s[s.len() - 1])
    }
}

/// The binary operator of the given kind (union or intersection) over two canonical trees.
pub open spec fn join(union: bool, left: BinObject, right: BinObject) -> BinObject {
    if union {
        BinObject::BinaryOperation(BinOp::Union(BinUnion { children: Box::new((left, right)) }))
    } else {
        BinObject::BinaryOperation(BinOp::Intersection(BinInter { children: Box::new((left, right)) }))
    }
}

/// Joins the canonical forms of two groups of operands: an absent group is dropped.
pub open spec fn combine(union: bool, left: Option<BinObject>, right: Option<BinObject>) -> Option<BinObject> {
    match (left, right) {
        (Some(l), Some(r)) => Some(join(union, l, r)),
        (Some(l), None) => Some(l),
        (None, Some(r)) => Some(r),
        (None, None) => None,
    }
}

/// The canonical form of a flexible tree; `None` for the empty solid.
pub open spec fn obj_binarize(t: Object) -> Option<BinObject>
    decreases t,
{
    match t {
        Object::Primitive(p) => Some(BinObject::Primitive(p)),
        Object::Operation(Op::Union(u)) => nary_binarize(true, u.children@),
        Object::Operation(Op::Intersection(i)) => nary_binarize(false, i.children@),
        Object::BinaryOperation(op) => Some(BinObject::BinaryOperation(op)),
        Object::Modifier(Modifier::Rounding(c, radius)) => match obj_binarize(*c) {
            Some(b) => Some(BinObject::Modifier(Modifier::Rounding(Box::new(b), radius))),
            None => None,
        },
    }
}

/// The balanced canonical form of a union (or intersection) over `s`: the list is
/// split at half its length, each half is binarized, and the results are combined.
pub open spec fn nary_binarize(union: bool, s: Seq<Object>) -> Option<BinObject>
    decreases s,
{
    if s.len() == 0 {
        None
    } else if s.len() == 1 {
        obj_binarize(s[0])
    } else {
        let mid = s.len() / 2;
        combine(
            union,
            nary_binarize(union, s.subrange(0, mid as int)),
            nary_binarize(union, s.subrange(mid as int, s.len() as int)),
        )
    }
}

/// The total size of a list splits over any cut of it.
pub proof fn lemma_seq_size_split(s: Seq<Object>, m: int)
    requires
        0 <= m <= s.len(),
    ensures
        seq_size(s) == seq_size(s.subrange(0, m)) + seq_size(s.subrange(m, s.len() as int)),
    decreases s.len(),
{
    if m == s.len() {
        assert(s.subrange(0, m) =~= s);
        assert(seq_size(s.subrange(m, s.len() as int)) == 0);
    } else {
        let t = s.subrange(0, s.len() - 1);
        lemma_seq_size_split(t, m);
        let right = s.subrange(m, s.len() as int);
        assert(right.subrange(0, right.len() - 1) =~= t.subrange(m, t.len() as int));
        assert(t.subrange(0, m) =~= s.subrange(0, m));
    }
}

/// Each tree of a list is no higher than the list's greatest height.
pub proof fn lemma_seq_height_elem(s: Seq<Object>, i: int)
    requires
        0 <= i < s.len(),
    ensures
        obj_height(s[i]) <= seq_height(s),
    decreases s.len(),
{
    if i < s.len() - 1 {
        let t = s.subrange(0, s.len() - 1);
        lemma_seq_height_elem(t, i);
    }
}

/// Signed distance from `at` to a flexible tree's solid: a union takes the
/// smallest of its operands' distances (none: `i64::MAX`), an intersection the
/// largest (none: `i64::MIN`); binary operators and roundings are as for
/// canonical trees.
pub open spec fn obj_distance(t: Object, at: Vec3) -> int
    decreases t,
{
    match t {
        Object::Primitive(p) => prim_distance(p, at),
        Object::Operation(Op::Union(u)) => seq_distance(true, u.children@, at),
        Object::Operation(Op::Intersection(i)) => seq_distance(false, i.children@, at),
        Object::BinaryOperation(op) => bin_distance(BinObject::BinaryOperation(op), at),
        Object::Modifier(Modifier::Rounding(c, radius)) => clamp64(obj_distance(*c, at) - radius),
    }
}

/// The smallest (for a union) or largest (for an intersection) distance from
/// `at` to the trees of `s`.
pub open spec fn seq_distance(union: bool, s: Seq<Object>, at: Vec3) -> int
    decreases s,
{
    if s.len() == 0 {
        if union {
            i64::MAX as int
        } else {
            i64::MIN as int
        }
    } else {
        let (a, b) = (seq_distance(union, s.subrange(0, s.len() - 1), at), obj_distance(s[s.len() - 1], at));
        if union {
            min(a, b)
        } else {
            max(a, b)
        }
    }
}

/// Half the side of an origin-centred cube that holds a flexible tree's solid: a
/// union takes the largest of its operands' bounds (none: zero), an intersection
/// the smallest (none: `i64::MAX`); binary operators and roundings are as for
/// canonical trees.
pub open spec fn obj_bound(t: Object) -> int
    decreases t,
{
    match t {
        Object::Primitive(p) => prim_bound(p),
        Object::Operation(Op::Union(u)) => seq_bound(true, u.children@),
        Object::Operation(Op::Intersection(i)) => seq_bound(false, i.children@),
        Object::BinaryOperation(op) => bin_bound(BinObject::BinaryOperation(op)),
        Object::Modifier(Modifier::Rounding(c, radius)) => clamp64(obj_bound(*c) + radius),
    }
}

/// The largest (for a union) or smallest (for an intersection) bound of the
/// trees of `s`; for an empty list, zero (union) or `i64::MAX` (intersection).
pub open spec fn seq_bound(union: bool, s: Seq<Object>) -> int
    decreases s,
{
    if s.len() == 0 {
        if union {
            0
        } else {
            i64::MAX as int
        }
    } else if s.len() == 1 {
        obj_bound(s[0])
    } else {
        let (a, b) = (seq_bound(union, s.subrange(0, s.len() - 1)), obj_bound(s[s.len() - 1]));
        if union {
            max(a, b)
        } else {
            min(a, b)
        }
    }
}

/// The flexible tree that a canonical tree is, unchanged.
pub open spec fn obj_of(b: BinObject) -> Object
    decreases b,
{
    match b {
        BinObject::Primitive(p) => Object::Primitive(p),
        BinObject::BinaryOperation(op) => Object::BinaryOperation(op),
        BinObject::Modifier(Modifier::Rounding(c, radius)) => Object::Modifier(Modifier::Rounding(Box::new(obj_of(*c)), radius)),
    }
}

/// The leaves of a list split over any cut of it.
pub proof fn lemma_seq_leaves_split(s: Seq<Object>, m: int)
    requires
        0 <= m <= s.len(),
    ensures
        seq_leaves(s) == seq_leaves(s.subrange(0, m)) + seq_leaves(s.subrange(m, s.len() as int)),
    decreases s.len(),
{
    if m == s.len() {
        assert(s.subrange(0, m) =~= s);
        assert(seq_leaves(s.subrange(m, s.len() as int)) =~= Seq::<Primitive>::empty());
        assert(seq_leaves(s) =~= seq_leaves(s) + Seq::<Primitive>::empty());
    } else {
        let t = s.subrange(0, s.len() - 1);
        lemma_seq_leaves_split(t, m);
        let right = s.subrange(m, s.len() as int);
        assert(right.subrange(0, right.len() - 1) =~= t.subrange(m, t.len() as int));
        assert(t.subrange(0, m) =~= s.subrange(0, m));
        assert(seq_leaves(s) =~= seq_leaves(s.subrange(0, m)) + seq_leaves(right));
    }
}

impl Object {
    /// The canonical tree `b` as a flexible tree.
    pub fn from_bin(b: BinObject) -> (r: Object)
        ensures
            r == obj_of(b),
        decreases b,
    {
        match b {
            BinObject::Primitive(p) => Object::Primitive(p),
            BinObject::BinaryOperation(op) => Object::BinaryOperation(op),
            BinObject::Modifier(Modifier::Rounding(c, radius)) => Object::Modifier(Modifier::Rounding(Box::new(Object::from_bin(*c)), radius)),
        }
    }


    /// Number of nodes of the tree.
    pub fn size(&self) -> (r: usize)
        requires
            obj_size(*self) <= usize::MAX,
        ensures
            r == obj_size(*self),
            r >= 1,
        decreases self,
    {
        match self {
            Object::Primitive(_) => 1,
            Object::Operation(op) => op.size(),
            Object::BinaryOperation(op) => op.size(),
            Object::Modifier(Modifier::Rounding(c, _)) => 1 + c.size(),
        }
    }

    /// Number of levels of the tree.
    pub fn height(&self) -> (r: usize)
        requires
            obj_height(*self) <= usize::MAX,
        ensures
            r == obj_height(*self),
            r >= 1,
        decreases self,
    {
        match self {
            Object::Primitive(_) => 1,
            Object::Operation(op) => op.height(),
            Object::BinaryOperation(op) => op.height(),
            Object::Modifier(Modifier::Rounding(c, _)) => 1 + c.height(),
        }
    }

    /// Signed distance from `at` to the solid.
    pub fn distance_function(&self, at: Vec3) -> (r: i64)
        ensures
            r == obj_distance(*self, at),
        decreases self,
    {
        match self {
            Object::Primitive(p) => p.distance_function(at),
            Object::Operation(op) => op.distance_function(at),
            Object::BinaryOperation(op) => op.distance_function(at),
            Object::Modifier(Modifier::Rounding(c, radius)) => clamp_i64(
                c.distance_function(at) as i128 - *radius as i128,
            ),
        }
    }

    /// Half the side of an origin-centred cube that holds the solid.
    pub fn bounding_cube(&self) -> (r: i64)
        ensures
            r == obj_bound(*self),
        decreases self,
    {
        match self {
            Object::Primitive(p) => p.bounding_cube(),
            Object::Operation(op) => op.bounding_cube(),
            Object::BinaryOperation(op) => op.bounding_cube(),
            Object::Modifier(Modifier::Rounding(c, radius)) => clamp_i64(
                c.bounding_cube() as i128 + *radius as i128,
            ),
        }
    }

    /// The canonical form of the tree, or `None` where the tree denotes the empty solid.
    pub fn binarize(self) -> (r: Option<BinObject>)
        ensures
            r == obj_binarize(self),
        decreases self,
    {
        match self {
            Object::Primitive(p) => Some(BinObject::Primitive(p)),
            Object::Operation(op) => op.binarize(),
            Object::BinaryOperation(op) => Some(BinObject::BinaryOperation(op)),
            Object::Modifier(Modifier::Rounding(c, radius)) => match c.binarize() {
                Some(b) => Some(BinObject::Modifier(Modifier::Rounding(Box::new(b), radius))),
                None => None,
            },
        }
    }
}

/// Total number of nodes of the trees in `children`.
pub(crate) fn children_size(children: &Vec<Object>) -> (r: usize)
    requires
        seq_size(children@) < usize::MAX,
    ensures
        r == seq_size(children@),
    decreases children@,
{
    let mut acc: usize = 0;
    let mut i: usize = 0;
    while i < children.len()
        invariant
            i <= children@.len(),
            acc == seq_size(children@.subrange(0, i as int)),
            seq_size(children@) < usize::MAX,
        decreases children@.len() - i,
    {
        let ghost s = children@;
        proof {
            lemma_seq_size_split(s, i + 1);
            assert(s.subrange(0, i + 1).subrange(0, i as int) =~= s.subrange(0, i as int));
            assert(decreases_to!(children@ => children@[i as int]));
        }
        let c = children[i].size();
        acc = acc + c;
        i = i + 1;
    }
    assert(children@.subrange(0, i as int) =~= children@);
    acc
}

/// The greatest height of the trees in `children`; zero where there are none.
pub(crate) fn children_height(children: &Vec<Object>) -> (r: usize)
    requires
        seq_height(children@) < usize::MAX,
    ensures
        r == seq_height(children@),
    decreases children@,
{
    let mut acc: usize = 0;
    let mut i: usize = 0;
    while i < children.len()
        invariant
            i <= children@.len(),
            acc == seq_height(children@.subrange(0, i as int)),
            seq_height(children@) < usize::MAX,
        decreases children@.len() - i,
    {
        let ghost s = children@;
        proof {
            lemma_seq_height_elem(s, i as int);
            assert(s.subrange(0, i + 1).subrange(0, i as int) =~= s.subrange(0, i as int));
            assert(decreases_to!(children@ => children@[i as int]));
        }
        let h = children[i].height();
        if h > acc {
            acc = h;
        }
        i = i + 1;
    }
    assert(children@.subrange(0, i as int) =~= children@);
    acc
}

/// The smallest (for a union) or largest (for an intersection) distance from
/// `at` to the trees in `children`.
pub(crate) fn children_distance(union: bool, children: &Vec<Object>, at: Vec3) -> (r: i64)
    ensures
        r == seq_distance(union, children@, at),
    decreases children@,
{
    let mut acc: i64 = if union {
        i64::MAX
    } else {
        i64::MIN
    };
    let mut i: usize = 0;
    while i < children.len()
        invariant
            i <= children@.len(),
            acc == seq_distance(union, children@.subrange(0, i as int), at),
        decreases children@.len() - i,
    {
        proof {
            assert(children@.subrange(0, i + 1).subrange(0, i as int) =~= children@.subrange(0, i as int));
            assert(decreases_to!(children@ => children@[i as int]));
        }
        let d = children[i].distance_function(at);
        if union {
            if d < acc {
                acc = d;
            }
        } else {
            if d > acc {
                acc = d;
            }
        }
        i = i + 1;
    }
    assert(children@.subrange(0, i as int) =~= children@);
    acc
}

/// The largest (for a union) or smallest (for an intersection) bound of the
/// trees in `children`; for none, zero (union) or `i64::MAX` (intersection).
pub(crate) fn children_bound(union: bool, children: &Vec<Object>) -> (r: i64)
    ensures
        r == seq_bound(union, children@),
    decreases children@,
{
    if children.len() == 0 {
        return if union {
            0
        } else {
            i64::MAX
        };
    }
    proof {
        assert(decreases_to!(children@ => children@[0]));
    }
    let mut acc: i64 = children[0].bounding_cube();
    let mut i: usize = 1;
    while i < children.len()
        invariant
            1 <= i <= children@.len(),
            acc == seq_bound(union, children@.subrange(0, i as int)),
        decreases children@.len() - i,
    {
        proof {
            assert(children@.subrange(0, i + 1).subrange(0, i as int) =~= children@.subrange(0, i as int));
            assert(decreases_to!(children@ => children@[i as int]));
        }
        let b = children[i].bounding_cube();
        if union {
            if b > acc {
                acc = b;
            }
        } else {
            if b < acc {
                acc = b;
            }
        }
        i = i + 1;
    }
    assert(children@.subrange(0, i as int) =~= children@);
    acc
}

} // verus!
