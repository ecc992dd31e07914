//! Constructive solid geometry trees: primitives combined by boolean operators
//! and modifiers, with structural queries, a signed-distance field, and a
//! balancing transform into strictly binary trees and their preorder form.

pub mod bin_op;
pub mod binary_object;
pub mod binary_operations;
pub mod flat;
pub mod laws;
pub mod modifiers;
pub mod object;
pub mod operations;
pub mod node;
pub mod primitive;
pub mod primitives;
pub mod traits;
pub mod unary_op;
pub mod vector;

pub use bin_op::BinOp;
pub use primitive::Primitive;
pub use unary_op::UnaryOp;

use vstd::prelude::*;
use crate::binary_object::{bin_height, bin_nodes, bin_size, BinObject};
use crate::flat::{make_op_exec, flat_tree, flat_wf, lemma_nodes_wf, lemma_parse_consumes, parse, read_rest, read_tree};
use crate::modifiers::Modifier;
use crate::node::CsgNode;

verus! {

/// The nodes of a sequence of (node, payload) entries.
pub open spec fn node_seq<T>(v: Seq<(CsgNode, T)>) -> Seq<CsgNode> {
    v.map_values(|e: (CsgNode, T)| e.0)
}

/// Why a node sequence is not the preorder of exactly one tree.
#[derive(Clone, Copy, Debug, PartialEq, Eq, Structural)]
pub enum ShapeError {
    /// The sequence ends before every node has all of its children.
    Incomplete,
    /// The first tree ends before the sequence does.
    Trailing,
}

/// A tree without payloads.
pub type CSG = LoadedCSG<()>;

/// A tree stored as its preorder node sequence, each node with a payload of type `T`.
pub struct LoadedCSG<T> {
    csg_tree: Vec<(CsgNode, T)>,
}

/// Reads the tree that starts at `tree[i]`: gives its height and the index just
/// past it, or `None` where the entries run out first.
fn walk_height<T>(tree: &Vec<(CsgNode, T)>, i: usize, fuel: usize) -> (r: Option<(usize, usize)>)
    requires
        i <= tree@.len(),
    ensures
        ({
            let s = node_seq(tree@).subrange(i as int, tree@.len() as int);
            &&& r is None <==> parse(s, fuel as nat) is None
            &&& r matches Some((h, j)) ==> {
                &&& i < j <= tree@.len()
                &&& h == bin_height(read_tree(s, fuel as nat))
                &&& read_rest(s, fuel as nat) == node_seq(tree@).subrange(j as int, tree@.len() as int)
            }
        }),
    decreases fuel,
{
    let ghost all = node_seq(tree@);
    let ghost s = all.subrange(i as int, tree@.len() as int);
    if fuel == 0 || i >= tree.len() {
        return None;
    }
    proof {
        assert(s[0] == tree@[i as int].0);
        assert(s.subrange(1, s.len() as int) =~= all.subrange(i + 1, tree@.len() as int));
    }
    match tree[i].0 {
        CsgNode::Primitive(_) => Some((1, i + 1)),
        CsgNode::UnaryOp(_) => match walk_height(tree, i + 1, fuel - 1) {
            Some((h, j)) => {
                proof {
                    lemma_parse_consumes(s.subrange(1, s.len() as int), (fuel - 1) as nat);
                }
                Some((h + 1, j))
            },
            None => None,
        },
        CsgNode::BinOp(_) => match walk_height(tree, i + 1, fuel - 1) {
            Some((h1, j1)) => match walk_height(tree, j1, fuel - 1) {
                Some((h2, j2)) => {
                    proof {
                        lemma_parse_consumes(s.subrange(1, s.len() as int), (fuel - 1) as nat);
                        lemma_parse_consumes(all.subrange(j1 as int, tree@.len() as int), (fuel - 1) as nat);
                    }
                    if h1 >= h2 {
                        Some((h1 + 1, j2))
                    } else {
                        Some((h2 + 1, j2))
                    }
                },
                None => None,
            },
            None => None,
        },
    }
}

/// Rebuilds the tree that starts at `tree[i]`: gives it and the index just past
/// it, or `None` where the entries run out first.
fn read_from<T>(tree: &Vec<(CsgNode, T)>, i: usize, fuel: usize) -> (r: Option<(BinObject, usize)>)
    requires
        i <= tree@.len(),
    ensures
        ({
            let s = node_seq(tree@).subrange(i as int, tree@.len() as int);
            &&& r is None <==> parse(s, fuel as nat) is None
            &&& r matches Some((t, j)) ==> {
                &&& i < j <= tree@.len()
                &&& t == read_tree(s, fuel as nat)
                &&& read_rest(s, fuel as nat) == node_seq(tree@).subrange(j as int, tree@.len() as int)
            }
        }),
    decreases fuel,
{
    let ghost all = node_seq(tree@);
    let ghost s = all.subrange(i as int, tree@.len() as int);
    if fuel == 0 || i >= tree.len() {
        return None;
    }
    proof {
        assert(s[0] == tree@[i as int].0);
        assert(s.subrange(1, s.len() as int) =~= all.subrange(i + 1, tree@.len() as int));
    }
    match tree[i].0 {
        CsgNode::Primitive(p) => Some((BinObject::Primitive(crate::primitives::Primitive::from_node(p)), i + 1)),
        CsgNode::UnaryOp(UnaryOp::Round { radius }) => match read_from(tree, i + 1, fuel - 1) {
            Some((c, j)) => Some((BinObject::Modifier(Modifier::Rounding(Box::new(c), radius)), j)),
            None => None,
        },
        CsgNode::BinOp(k) => match read_from(tree, i + 1, fuel - 1) {
            Some((a, j1)) => match read_from(tree, j1, fuel - 1) {
                Some((b, j2)) => Some((make_op_exec(k, a, b), j2)),
                None => None,
            },
            None => None,
        },
    }
}

impl<T> LoadedCSG<T> {
    #[verifier::type_invariant]
    spec fn shaped(&self) -> bool {
        flat_wf(node_seq(self.csg_tree@))
    }

    /// The (node, payload) entries, in preorder.
    pub closed spec fn entries(&self) -> Seq<(CsgNode, T)> {
        self.csg_tree@
    }

    /// The nodes, in preorder.
    pub open spec fn node_list(&self) -> Seq<CsgNode> {
        node_seq(self.entries())
    }

    /// The empty tree.
    pub fn empty() -> (r: LoadedCSG<T>)
        ensures
            r.entries() == Seq::<(CsgNode, T)>::empty(),
    {
        let r = LoadedCSG { csg_tree: Vec::with_capacity(0) };
        assert(node_seq(r.csg_tree@) =~= Seq::<CsgNode>::empty());
        r
    }

    /// Takes `tree` as it is after checking that its nodes are empty or the
    /// preorder of exactly one tree.
    pub fn new(tree: Vec<(CsgNode, T)>) -> (r: Result<LoadedCSG<T>, ShapeError>)
        ensures
            r is Ok <==> flat_wf(node_seq(tree@)),
            r matches Ok(l) ==> l.entries() == tree@,
            r == Err::<LoadedCSG<T>, ShapeError>(ShapeError::Incomplete) <==> (tree@.len() > 0
                && parse(node_seq(tree@), tree@.len() as nat) is None),
            r == Err::<LoadedCSG<T>, ShapeError>(ShapeError::Trailing) <==> (tree@.len() > 0
                && parse(node_seq(tree@), tree@.len() as nat) is Some
                && read_rest(node_seq(tree@), tree@.len() as nat).len() > 0),
    {
        let n = tree.len();
        if n == 0 {
            return Ok(LoadedCSG { csg_tree: tree });
        }
        proof {
            assert(node_seq(tree@).subrange(0, n as int) =~= node_seq(tree@));
        }
        match walk_height(&tree, 0, n) {
            None => Err(ShapeError::Incomplete),
            Some((_, j)) => {
                if j == n {
                    Ok(LoadedCSG { csg_tree: tree })
                } else {
                    Err(ShapeError::Trailing)
                }
            },
        }
    }

    /// Takes `tree` as it is; its nodes must already be empty or the preorder of
    /// exactly one tree.
    pub fn new_unchecked(tree: Vec<(CsgNode, T)>) -> (r: LoadedCSG<T>)
        requires
            flat_wf(node_seq(tree@)),
        ensures
            r.entries() == tree@,
    {
        LoadedCSG { csg_tree: tree }
    }

    /// Number of nodes.
    pub fn node_count(&self) -> (r: usize)
        ensures
            r == self.entries().len(),
    {
        self.csg_tree.len()
    }

    /// Number of levels of the stored tree; zero for the empty tree.
    pub fn height(&self) -> (r: usize)
        ensures
            r == (if self.entries().len() == 0 {
                0
            } else {
                bin_height(flat_tree(self.node_list()))
            }),
    {
        proof {
            use_type_invariant(self);
        }
        let n = self.csg_tree.len();
        if n == 0 {
            return 0;
        }
        proof {
            assert(node_seq(self.csg_tree@).subrange(0, n as int) =~= node_seq(self.csg_tree@));
        }
        match walk_height(&self.csg_tree, 0, n) {
            Some((h, _)) => h,
            None => 0,
        }
    }

    /// Rebuilds the stored tree: each node is read with as many subtrees after
    /// it as its arity asks for. `None` for the empty tree.
    pub fn tree(&self) -> (r: Option<BinObject>)
        ensures
            r is None <==> self.entries().len() == 0,
            r matches Some(t) ==> t == flat_tree(self.node_list()),
    {
        proof {
            use_type_invariant(self);
        }
        let n = self.csg_tree.len();
        if n == 0 {
            return None;
        }
        proof {
            assert(node_seq(self.csg_tree@).subrange(0, n as int) =~= node_seq(self.csg_tree@));
        }
        match read_from(&self.csg_tree, 0, n) {
            Some((t, _)) => Some(t),
            None => None,
        }
    }

    /// The nodes, in preorder.
    pub fn nodes(&self) -> (r: Vec<CsgNode>)
        ensures
            r@ == self.node_list(),
    {
        let mut out: Vec<CsgNode> = Vec::with_capacity(self.csg_tree.len());
        let mut i: usize = 0;
        while i < self.csg_tree.len()
            invariant
                i <= self.csg_tree@.len(),
                out@ == node_seq(self.csg_tree@).subrange(0, i as int),
            decreases self.csg_tree@.len() - i,
        {
            out.push(self.csg_tree[i].0);
            i = i + 1;
            assert(out@ =~= node_seq(self.csg_tree@).subrange(0, i as int));
        }
        assert(out@ =~= node_seq(self.csg_tree@));
        out
    }

    /// The payloads, in the order of their nodes.
    pub fn payloads(&self) -> (r: Vec<&T>)
        ensures
            r@.len() == self.entries().len(),
            forall|i: int| 0 <= i < r@.len() ==> *r@[i] == self.entries()[i].1,
    {
        let mut out: Vec<&T> = Vec::with_capacity(self.csg_tree.len());
        let mut i: usize = 0;
        while i < self.csg_tree.len()
            invariant
                i <= self.csg_tree@.len(),
                out@.len() == i,
                forall|k: int| 0 <= k < i ==> *out@[k] == self.csg_tree@[k].1,
            decreases self.csg_tree@.len() - i,
        {
            out.push(&self.csg_tree[i].1);
            i = i + 1;
        }
        out
    }
}

/// Appends the nodes of `t` in preorder to `out`, each with a unit payload.
fn fill_entries(t: &BinObject, out: &mut Vec<(CsgNode, ())>)
    ensures
        node_seq(final(out)@) == node_seq(old(out)@) + bin_nodes(*t),
    decreases t,
{
    let ghost before = node_seq(out@);
    match t {
        BinObject::Primitive(p) => {
            out.push((CsgNode::Primitive(p.node()), ()));
            assert(node_seq(out@) =~= before + bin_nodes(*t));
        },
        BinObject::BinaryOperation(op) => {
            out.push((CsgNode::BinOp(op.kind()), ()));
            assert(node_seq(out@) =~= before + seq![CsgNode::BinOp(crate::binary_object::kind_of(*op))]);
            fill_entries(op.left(), out);
            fill_entries(op.right(), out);
            assert(node_seq(out@) =~= before + bin_nodes(*t));
        },
        BinObject::Modifier(Modifier::Rounding(c, radius)) => {
            out.push((CsgNode::UnaryOp(UnaryOp::Round { radius: *radius }), ()));
            assert(node_seq(out@) =~= before + seq![CsgNode::UnaryOp(UnaryOp::Round { radius: *radius })]);
            fill_entries(c, out);
            assert(node_seq(out@) =~= before + bin_nodes(*t));
        },
    }
}

impl LoadedCSG<()> {
    /// Flattens `tree`: counts its nodes, reserves exactly that room, and fills it
    /// in one preorder pass, with a unit payload on each node.
    pub fn from_tree(tree: &BinObject) -> (r: CSG)
        requires
            bin_size(*tree) <= usize::MAX,
        ensures
            r.node_list() == bin_nodes(*tree),
            r.entries().len() == bin_size(*tree),
            flat_tree(r.node_list()) == *tree,
    {
        let capacity = tree.size();
        let mut entries: Vec<(CsgNode, ())> = Vec::with_capacity(capacity);
        fill_entries(tree, &mut entries);
        proof {
            assert(node_seq(entries@) =~= bin_nodes(*tree));
            crate::laws::lemma_nodes_len(*tree);
            lemma_nodes_wf(*tree);
        }
        LoadedCSG::new_unchecked(entries)
    }
}

} // verus!
