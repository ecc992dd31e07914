use csg::bin_op::BinOp as BinKind;
use csg::binary_object::BinObject;
use csg::binary_operations::binary_union::BinUnion;
use csg::binary_operations::BinOp;
use csg::node::CsgNode;
use csg::primitives::sphere::Sphere;
use csg::primitives::Primitive;
use csg::{LoadedCSG, ShapeError, CSG};

fn sphere_node(r: i32) -> CsgNode {
    CsgNode::Primitive(csg::Primitive::sphere(r))
}

fn bin_sphere(r: i32) -> BinObject {
    BinObject::Primitive(Primitive::Sphere(Sphere::centered(r)))
}

fn union(a: BinObject, b: BinObject) -> BinObject {
    BinObject::BinaryOperation(BinOp::Union(BinUnion::new(a, b)))
}

#[test]
fn create_csg() {
    let empty_csg: CSG = LoadedCSG::from_tree(&union(union(bin_sphere(1), bin_sphere(1)), bin_sphere(1)));
    assert_eq!(empty_csg.node_count(), 5);
    assert_eq!(empty_csg.height(), 3);

    let weighted_csg = LoadedCSG::new(vec![
        (CsgNode::BinOp(BinKind::Union), 1.0),
        (CsgNode::BinOp(BinKind::Union), 2.5),
        (sphere_node(1), 0.5),
        (sphere_node(1), 0.5),
        (sphere_node(1), 2.0),
    ])
    .unwrap();
    assert_eq!(weighted_csg.node_count(), 5);
    assert_eq!(weighted_csg.payloads(), vec![&1.0, &2.5, &0.5, &0.5, &2.0]);
}

#[test]
fn builder_stores_preorder() {
    let t = union(bin_sphere(3), union(bin_sphere(1), bin_sphere(2)));
    let flat = LoadedCSG::from_tree(&t);
    assert_eq!(flat.nodes(), t.nodes());
    assert_eq!(flat.node_count(), t.size());
    assert_eq!(flat.height(), t.height());
    assert_eq!(flat.payloads().len(), 5);
}

#[test]
fn empty_container() {
    let e: LoadedCSG<u8> = LoadedCSG::empty();
    assert_eq!(e.node_count(), 0);
    assert_eq!(e.height(), 0);
    assert!(e.nodes().is_empty());
    assert!(LoadedCSG::<u8>::new(vec![]).is_ok());
}

#[test]
fn checked_constructor_rejects_bad_shapes() {
    let missing = LoadedCSG::new(vec![(CsgNode::BinOp(BinKind::Diff), ()), (sphere_node(1), ())]);
    assert_eq!(missing.err(), Some(ShapeError::Incomplete));
    let trailing = LoadedCSG::new(vec![(sphere_node(1), ()), (sphere_node(2), ())]);
    assert_eq!(trailing.err(), Some(ShapeError::Trailing));
    let unary = LoadedCSG::new(vec![(CsgNode::UnaryOp(csg::UnaryOp::Round { radius: 1 }), ())]);
    assert_eq!(unary.err(), Some(ShapeError::Incomplete));
}

#[test]
fn unchecked_constructor_keeps_entries() {
    let flat = LoadedCSG::new_unchecked(vec![
        (CsgNode::UnaryOp(csg::UnaryOp::Round { radius: 1 }), 'a'),
        (sphere_node(2), 'b'),
    ]);
    assert_eq!(flat.height(), 2);
    assert_eq!(flat.payloads(), vec![&'a', &'b']);
}

#[test]
fn tree_reads_back_what_was_flattened() {
    let t = union(bin_sphere(3), union(bin_sphere(1), bin_sphere(2)));
    let flat = LoadedCSG::from_tree(&t);
    let back = flat.tree().unwrap();
    assert_eq!(back.nodes(), t.nodes());
    let e: CSG = LoadedCSG::empty();
    assert!(e.tree().is_none());
    let rounded = LoadedCSG::new(vec![
        (CsgNode::UnaryOp(csg::UnaryOp::Round { radius: 1 }), ()),
        (CsgNode::BinOp(BinKind::Diff), ()),
        (sphere_node(2), ()),
        (sphere_node(1), ()),
    ])
    .unwrap();
    let back = rounded.tree().unwrap();
    assert_eq!(back.size(), 4);
    assert_eq!(back.height(), 3);
    assert_eq!(rounded.height(), 3);
    assert_eq!(back.nodes(), rounded.nodes());
}
