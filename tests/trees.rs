use csg::bin_op::BinOp as BinKind;
use csg::binary_object::BinObject;
use csg::binary_operations::binary_intersection::BinInter;
use csg::binary_operations::binary_union::BinUnion;
use csg::binary_operations::substraction::Cut;
use csg::binary_operations::BinOp;
use csg::modifiers::Modifier;
use csg::node::CsgNode;
use csg::object::Object;
use csg::operations::intersection::Inter;
use csg::operations::union::Union;
use csg::operations::Op;
use csg::primitives::cube::Cube;
use csg::primitives::sphere::Sphere;
use csg::primitives::Primitive;
use csg::vector::{isqrt, Quat, Vec3, QUAT_ONE};
use csg::traits::{BinarizeCsgTree, BoundingCube, DistanceFunc, NodeIter, TreeHeight, TreeSize};
use csg::UnaryOp;

fn sphere(r: i32) -> Object {
    Object::Primitive(Primitive::Sphere(Sphere::centered(r)))
}

fn bin_sphere(r: i32) -> BinObject {
    BinObject::Primitive(Primitive::Sphere(Sphere::centered(r)))
}

fn sphere_node(r: i32) -> CsgNode {
    CsgNode::Primitive(csg::Primitive::sphere(r))
}

fn union_of(children: Vec<Object>) -> Object {
    Object::Operation(Op::Union(Union::new(children)))
}

fn inter_of(children: Vec<Object>) -> Object {
    Object::Operation(Op::Intersection(Inter::new(children)))
}

#[test]
fn binarize_three_spheres_is_balanced() {
    let t = union_of(vec![sphere(1), sphere(2), sphere(3)]);
    let b = t.binarize().unwrap();
    assert_eq!(b.size(), 5);
    assert_eq!(b.height(), 3);
    let expected = vec![
        CsgNode::BinOp(BinKind::Union),
        sphere_node(1),
        CsgNode::BinOp(BinKind::Union),
        sphere_node(2),
        sphere_node(3),
    ];
    assert_eq!(b.nodes(), expected);
}

#[test]
fn binarize_empty_union_is_absent() {
    assert!(union_of(vec![]).binarize().is_none());
    assert!(inter_of(vec![]).binarize().is_none());
}

#[test]
fn binarize_single_child_drops_operator() {
    let b = union_of(vec![sphere(4)]).binarize().unwrap();
    assert_eq!(b.size(), 1);
    assert_eq!(b.height(), 1);
    assert_eq!(b.nodes(), vec![sphere_node(4)]);
}

#[test]
fn binarize_drops_empty_groups() {
    let t = inter_of(vec![union_of(vec![]), sphere(2), inter_of(vec![])]);
    let b = t.binarize().unwrap();
    assert_eq!(b.nodes(), vec![sphere_node(2)]);
    let m = Object::Modifier(Modifier::Rounding(Box::new(union_of(vec![])), 3));
    assert!(m.binarize().is_none());
}

#[test]
fn binarize_modifier_and_intersection() {
    let t = Object::Modifier(Modifier::Rounding(Box::new(inter_of(vec![sphere(1), sphere(2)])), 7));
    assert_eq!(t.size(), 4);
    assert_eq!(t.height(), 3);
    let b = t.binarize().unwrap();
    assert_eq!(
        b.nodes(),
        vec![
            CsgNode::UnaryOp(UnaryOp::Round { radius: 7 }),
            CsgNode::BinOp(BinKind::Inter),
            sphere_node(1),
            sphere_node(2),
        ]
    );
}

#[test]
fn balance_of_eight_and_five_leaves() {
    let eight = union_of((1..=8).map(sphere).collect());
    let b = eight.binarize().unwrap();
    assert_eq!(b.height(), 4);
    assert_eq!(b.size(), 15);
    let five = inter_of((1..=5).map(sphere).collect());
    let b = five.binarize().unwrap();
    assert_eq!(b.height(), 4);
    assert_eq!(b.size(), 9);
    let ops = b.nodes().iter().filter(|n| matches!(n, CsgNode::BinOp(_))).count();
    assert_eq!(ops, 4);
}

#[test]
fn rebinarizing_canonical_tree_keeps_nodes() {
    let b = union_of(vec![sphere(1), sphere(2), sphere(3)]).binarize().unwrap();
    let b = BinObject::Modifier(Modifier::Rounding(Box::new(b), 2));
    let before = b.nodes();
    let again = Object::from_bin(b).binarize().unwrap();
    assert_eq!(again.nodes(), before);
}

#[test]
fn sizes_and_heights() {
    assert_eq!(sphere(1).size(), 1);
    assert_eq!(sphere(1).height(), 1);
    assert_eq!(union_of(vec![]).size(), 1);
    assert_eq!(union_of(vec![]).height(), 1);
    let t = union_of(vec![sphere(1), inter_of(vec![sphere(2), sphere(3)]), sphere(4)]);
    assert_eq!(t.size(), 6);
    assert_eq!(t.height(), 3);
    let cut = BinObject::BinaryOperation(BinOp::Substraction(Cut::new(bin_sphere(2), bin_sphere(1))));
    assert_eq!(cut.size(), 3);
    assert_eq!(cut.height(), 2);
    assert_eq!(cut.nodes().len(), cut.size());
    assert_eq!(cut.nodes(), cut.nodes());
}

#[test]
fn difference_distance_at_one_and_a_half() {
    // lengths in thousandths
    let cut = BinObject::BinaryOperation(BinOp::Substraction(Cut::new(bin_sphere(2000), bin_sphere(1000))));
    assert_eq!(cut.distance_function(Vec3::new(1500, 0, 0)), -500);
    let flexible = Object::BinaryOperation(BinOp::Substraction(Cut::new(bin_sphere(2000), bin_sphere(1000))));
    assert_eq!(flexible.distance_function(Vec3::new(0, 1500, 0)), -500);
}

#[test]
fn union_and_intersection_distances() {
    let at = Vec3::new(0, 0, 10);
    let u = BinObject::BinaryOperation(BinOp::Union(BinUnion::new(bin_sphere(5), bin_sphere(2))));
    assert_eq!(u.distance_function(at), 5);
    let i = BinObject::BinaryOperation(BinOp::Intersection(BinInter::new(bin_sphere(5), bin_sphere(2))));
    assert_eq!(i.distance_function(at), 8);
    assert_eq!(union_of(vec![sphere(5), sphere(2), sphere(1)]).distance_function(at), 5);
    assert_eq!(inter_of(vec![sphere(5), sphere(2), sphere(1)]).distance_function(at), 9);
    assert_eq!(union_of(vec![]).distance_function(at), i64::MAX);
    assert_eq!(inter_of(vec![]).distance_function(at), i64::MIN);
    let rounded = Object::Modifier(Modifier::Rounding(Box::new(sphere(2)), 3));
    assert_eq!(rounded.distance_function(at), 5);
}

#[test]
fn bounding_radius_of_operators() {
    let i = BinObject::BinaryOperation(BinOp::Intersection(BinInter::new(bin_sphere(5), bin_sphere(2))));
    assert_eq!(i.bounding_cube(), 2);
    let u = BinObject::BinaryOperation(BinOp::Union(BinUnion::new(bin_sphere(5), bin_sphere(2))));
    assert_eq!(u.bounding_cube(), 5);
    let c = BinObject::BinaryOperation(BinOp::Substraction(Cut::new(bin_sphere(2), bin_sphere(5))));
    assert_eq!(c.bounding_cube(), 2);
    assert_eq!(inter_of(vec![sphere(5), sphere(2)]).bounding_cube(), 2);
    assert_eq!(union_of(vec![sphere(5), sphere(2)]).bounding_cube(), 5);
    assert_eq!(union_of(vec![]).bounding_cube(), 0);
    assert_eq!(inter_of(vec![]).bounding_cube(), i64::MAX);
    let rounded = BinObject::Modifier(Modifier::Rounding(Box::new(bin_sphere(2)), 3));
    assert_eq!(rounded.bounding_cube(), 5);
}

#[test]
fn primitive_bounds_and_distances() {
    let s = Sphere::centered(1).at(Vec3::new(3, 4, 0));
    assert_eq!(s.bounding_cube(), 6);
    let s = Sphere::centered(1).at(Vec3::new(1, 1, 0));
    assert_eq!(s.bounding_cube(), 3);
    assert_eq!(Sphere::centered(1).distance_function(Vec3::new(2, 2, 1)), 2);
    let cube = Cube::origin().scaled(Vec3::new(4, 6, 8)).at(Vec3::new(10, 0, 0));
    assert_eq!(cube.bounding_cube(), 10 + 6);
    assert_eq!(cube.distance_function(Vec3::new(10, 0, 0)), -2);
    assert_eq!(cube.distance_function(Vec3::new(15, 0, 0)), 3);
    assert_eq!(cube.distance_function(Vec3::new(10, 0, 9)), 5);
    // half a turn about z swaps the signs of x and y, and keeps z
    let turned = cube.rotated(Quat { w: 0, x: 0, y: 0, z: QUAT_ONE });
    assert_eq!(turned.distance_function(Vec3::new(5, 0, 0)), 3);
    assert_eq!(turned.distance_function(Vec3::new(10, 0, 9)), 5);
}

#[test]
fn integer_square_root() {
    assert_eq!(isqrt(0), 0);
    assert_eq!(isqrt(24), 4);
    assert_eq!(isqrt(25), 5);
    assert_eq!(isqrt(u64::MAX), 0xFFFF_FFFF);
    assert_eq!(Vec3::new(3, 4, 0).length_ceil(), 5);
    assert_eq!(Vec3::new(1, 1, 1).length_ceil(), 2);
}

#[test]
fn node_ids_are_distinct() {
    let ids: Vec<u32> = vec![
        sphere_node(1),
        CsgNode::Primitive(csg::Primitive::Cube { offset: Vec3::zero(), size: Vec3::one(), rotation: Quat::identity() }),
        CsgNode::UnaryOp(UnaryOp::Round { radius: 1 }),
        CsgNode::BinOp(BinKind::Union),
        CsgNode::BinOp(BinKind::Inter),
        CsgNode::BinOp(BinKind::Diff),
    ]
    .iter()
    .map(|n| n.id())
    .collect();
    assert_eq!(ids, vec![0, 1, 2, 3, 4, 5]);
}

#[test]
fn primitive_at_moves_any_kind() {
    let p = csg::Primitive::sphere(2).at(Vec3::new(1, 2, 3));
    assert_eq!(p, csg::Primitive::Sphere { radius: 2, offset: Vec3::new(1, 2, 3) });
    let c = csg::Primitive::Cube { offset: Vec3::zero(), size: Vec3::one(), rotation: Quat::identity() };
    assert_eq!(
        c.at(Vec3::new(4, 0, 0)),
        csg::Primitive::Cube { offset: Vec3::new(4, 0, 0), size: Vec3::one(), rotation: Quat::identity() }
    );
}

#[test]
fn binarize_keeps_leaf_order() {
    let t = union_of(vec![sphere(1), union_of(vec![sphere(2), sphere(3)]), union_of(vec![]), sphere(4)]);
    let b = t.binarize().unwrap();
    let leaves: Vec<CsgNode> = b.nodes().into_iter().filter(|n| matches!(n, CsgNode::Primitive(_))).collect();
    assert_eq!(leaves, vec![sphere_node(1), sphere_node(2), sphere_node(3), sphere_node(4)]);
    assert_eq!(b.size(), 7);
}

#[test]
fn capability_traits_match_methods() {
    let t = union_of(vec![sphere(5), sphere(2), sphere(1)]);
    assert_eq!(TreeSize::size(&t), 4);
    assert_eq!(TreeHeight::height(&t), 2);
    assert_eq!(BoundingCube::bounding_cube(&t), 5);
    assert_eq!(DistanceFunc::distance_function(&t, Vec3::new(0, 0, 10)), 5);
    let b = BinarizeCsgTree::binarize(t).unwrap();
    assert_eq!(NodeIter::nodes(&b).len(), TreeSize::size(&b));
    assert_eq!(TreeHeight::height(&b), 3);
}

#[test]
fn distance_sign_is_exact_near_the_surface() {
    // outside by half a unit: positive, not zero
    assert_eq!(Cube::origin().distance_function(Vec3::new(1, 0, 0)), 1);
    assert_eq!(Cube::origin().distance_function(Vec3::new(0, 0, 0)), -1);
    // an eighth of a turn about z: (1, 0, 0) is still outside
    let turned = Cube::origin().rotated(Quat { w: 15137, x: 0, y: 0, z: 6270 });
    assert_eq!(turned.distance_function(Vec3::new(1, 0, 0)), 1);
    assert_eq!(turned.distance_function(Vec3::new(0, 0, 0)), -1);
    // on the surface of a box of side 2
    let two = Cube::origin().scaled(Vec3::new(2, 2, 2));
    assert_eq!(two.distance_function(Vec3::new(1, 0, 0)), 0);
    // outside a unit sphere by about 0.41
    assert_eq!(Sphere::centered(1).distance_function(Vec3::new(1, 1, 0)), 1);
    assert_eq!(Sphere::centered(5).distance_function(Vec3::new(3, 4, 0)), 0);
    assert_eq!(Sphere::centered(5).distance_function(Vec3::new(3, 3, 0)), -1);
    assert_eq!(Sphere::centered(-1).distance_function(Vec3::new(0, 0, 0)), 1);
}

#[test]
fn union_bound_is_plain_maximum() {
    let flexible = union_of(vec![sphere(-5), sphere(-2)]);
    assert_eq!(flexible.bounding_cube(), -2);
    let b = union_of(vec![sphere(-5), sphere(-2)]).binarize().unwrap();
    assert_eq!(b.bounding_cube(), -2);
    assert_eq!(inter_of(vec![sphere(-5), sphere(-2)]).bounding_cube(), -5);
}
