use pathtrace::matrix4x4::Matrix4x4;
use pathtrace::transform::Transform;
use pathtrace::vector3::Vector3;
use pathtrace::Number;

fn v(x: i64, y: i64, z: i64) -> Vector3<i64> {
    Vector3::new_xyz(x, y, z)
}

#[test]
fn translate_moves_point() {
    let t = Transform::new_translate(3, 5, 6);
    assert_eq!(t.eval_point(&v(1, 1, 1)), v(4, 6, 7));
}

#[test]
fn scale_scales_point() {
    let t = Transform::new_scale(2, 3, 4);
    assert_eq!(t.eval_point(&v(1, 1, 1)), v(2, 3, 4));
}

#[test]
fn identity_maps_point_and_vector() {
    let t = Transform::new();
    assert_eq!(t.eval_point(&v(7, -2, 9)), v(7, -2, 9));
    assert_eq!(t.eval_vector(&v(7, -2, 9)), v(7, -2, 9));
}

#[test]
fn eval_vector_ignores_translation() {
    let t = Transform::new_translate(3, 5, 6);
    assert_eq!(t.eval_vector(&v(1, 1, 1)), v(1, 1, 1));
    assert_eq!(t.eval_point(&v(1, 1, 1)), v(4, 6, 7));
}

#[test]
fn compose_with_identity_is_neutral() {
    let t = Transform::new_translate(3, -5, 6).compose(&Transform::new_scale(2, 7, 1));
    assert_eq!(t.compose(&Transform::new()), t);
    assert_eq!(Transform::new().compose(&t), t);
}

#[test]
fn compose_applies_right_factor_first() {
    let t = Transform::new_scale(2, 1, 1).compose(&Transform::new_translate(1, 0, 0));
    // translate first, then scale: x goes to 2 * (x + 1)
    assert_eq!(t.eval_point(&v(3, 0, 0)), v(8, 0, 0));
}

#[test]
fn compose_is_associative() {
    let a = Transform::new_translate(1, 2, 3);
    let b = Transform::new_scale(2, -1, 5);
    let c = Transform::new_translate(-4, 0, 7);
    assert_eq!(a.compose(&b).compose(&c), a.compose(&b.compose(&c)));
}

#[test]
fn compose_is_not_commutative() {
    let s = Transform::new_scale(2, 1, 1);
    let t = Transform::new_translate(1, 0, 0);
    assert_ne!(s.compose(&t), t.compose(&s));
}

#[test]
fn translate_inverse_round_trips() {
    let t = Transform::new_translate(3, 5, 6);
    let inv = t.inverse().unwrap();
    let p = v(11, -7, 2);
    assert_eq!(inv.eval_point(&t.eval_point(&p)), p);
    assert_eq!(t.eval_point(&inv.eval_point(&p)), p);
    assert_eq!(inv.eval_vector(&t.eval_vector(&p)), p);
    assert_eq!(t.compose(&inv), Transform::new());
    assert_eq!(inv.compose(&t), Transform::new());
}

#[test]
fn mirror_scale_is_its_own_inverse() {
    let t = Transform::new_scale(1, 1, -1);
    let inv = t.inverse().unwrap();
    assert_eq!(inv, t);
}

#[test]
fn fractional_scale_has_no_exact_inverse() {
    let t = Transform::new_scale(2, 3, 4);
    assert!(t.inverse().is_none());
}

#[test]
fn matrix_quarter_turn_inverse_is_transpose() {
    // a quarter turn about z has integer entries; its inverse is its transpose
    let m = Matrix4x4::new(
        0, -1, 0, 0,
        1, 0, 0, 0,
        0, 0, 1, 0,
        0, 0, 0, 1,
    );
    let inv = m.inverse().unwrap();
    let expected = Matrix4x4::new(
        0, 1, 0, 0,
        -1, 0, 0, 0,
        0, 0, 1, 0,
        0, 0, 0, 1,
    );
    assert_eq!(inv, expected);
}

#[test]
fn singular_matrix_has_no_inverse() {
    let m = Matrix4x4::new(
        1, 2, 3, 4,
        2, 4, 6, 8,
        0, 0, 1, 0,
        0, 0, 0, 1,
    );
    assert!(m.inverse().is_none());
}

#[test]
fn uniform_scale_matrix_inverse_needs_exact_division() {
    assert!(Matrix4x4::new_ident(2).inverse().is_none());
    assert_eq!(Matrix4x4::new_ident(1).inverse().unwrap(), Matrix4x4::new_ident(1));
}

#[test]
fn matrix_product_against_hand_computation() {
    let a = Matrix4x4::new(
        1, 2, 0, 0,
        0, 1, 0, 0,
        0, 0, 1, 0,
        3, 0, 0, 1,
    );
    let b = Matrix4x4::new(
        1, 0, 0, 5,
        4, 1, 0, 0,
        0, 0, 2, 0,
        0, 0, 0, 1,
    );
    let expected = Matrix4x4::new(
        9, 2, 0, 5,
        4, 1, 0, 0,
        0, 0, 2, 0,
        3, 0, 0, 16,
    );
    assert_eq!(a.times(&b), expected);
}

#[test]
fn matrix_entry_reads_row_major() {
    let m = Matrix4x4::new(
        0, 1, 2, 3,
        10, 11, 12, 13,
        20, 21, 22, 23,
        30, 31, 32, 33,
    );
    for row in 0..4 {
        for col in 0..4 {
            assert_eq!(m.entry(row, col), (10 * row + col) as i64);
        }
    }
}

#[test]
fn cross_product_anticommutes() {
    let a = v(1, 2, 3);
    let b = v(4, 5, 6);
    assert_eq!(a.cross(&b), v(-3, 6, -3));
    assert_eq!(b.cross(&a), v(3, -6, 3));
}

#[test]
fn cross_of_parallel_vectors_is_zero() {
    let a = v(2, -4, 6);
    assert_eq!(a.cross(&v(1, -2, 3)), v(0, 0, 0));
}

#[test]
fn dot_and_len_squared() {
    assert_eq!(v(1, 2, 3).dot(&v(4, 5, 6)), 32);
    assert_eq!(v(3, 4, 12).len_squared(), 169);
    assert_eq!(v(0, 0, 0).len_squared(), 0);
}

#[test]
fn vector_constructors() {
    assert_eq!(Vector3::new(5i64), v(5, 5, 5));
    let w: Vector3<i32> = Vector3::new_xyz(1, -2, 3);
    assert_eq!(w.x, 1);
    assert_eq!(w.y, -2);
    assert_eq!(w.z, 3);
}

#[test]
fn vector_sum_and_difference() {
    assert_eq!(v(1, 2, 3).plus(v(10, 20, 30)), v(11, 22, 33));
    assert_eq!(v(1, 2, 3).minus(v(10, 20, 30)), v(-9, -18, -27));
}

#[test]
fn vector_division_truncates_toward_zero() {
    let mut a = v(7, -7, 3);
    a.div_assign(2);
    assert_eq!(a, v(3, -3, 1));
}

#[test]
fn scalar_trait_arithmetic() {
    assert_eq!(<i64 as Number>::zero_value(), 0);
    assert_eq!(5i64.plus(7), 12);
    assert_eq!(5i32.minus(7), -2);
    assert_eq!((-4i64).times(6), -24);
    assert_eq!((-7i64).div_trunc(2), -3);
    assert_eq!(7i32.div_trunc(-2), -3);
    assert!((-1i64).less_than(0));
    assert!(!0i32.less_than(0));
}

#[test]
fn transform_entry_exposes_the_matrix() {
    let t = Transform::new_translate(3, 5, 6);
    assert_eq!(t.entry(0, 3), 3);
    assert_eq!(t.entry(1, 3), 5);
    assert_eq!(t.entry(2, 3), 6);
    assert_eq!(t.entry(0, 0), 1);
    assert_eq!(t.entry(3, 3), 1);
    assert_eq!(t.entry(3, 0), 0);
}
