use geom_core::errors::GeomError;
use geom_core::vecmath::{calc_normal, crossp, dotp, mul_mat4, sub_vec3};

#[test]
fn dot_commutes_on_sample() {
    let a = [1i64, 2, 3];
    let b = [4i64, 5, 6];
    assert_eq!(dotp(&a, &b), Ok(32));
    assert_eq!(dotp(&b, &a), Ok(32));
}

#[test]
fn dot_of_empty_vectors_is_zero() {
    let a: [i64; 0] = [];
    let b: [i64; 0] = [];
    assert_eq!(dotp(&a, &b), Ok(0));
}

#[test]
fn dot_dimension_mismatch() {
    let a = [1i64, 2, 3];
    let b = [1i64, 2, 3, 4];
    assert_eq!(dotp(&a, &b), Err(GeomError::DimensionMismatch));
}

#[test]
fn cross_antisymmetric_on_sample() {
    let a = [1i64, 2, 3];
    let b = [4i64, 5, 6];
    let ab = crossp(a, b);
    let ba = crossp(b, a);
    assert_eq!(ab, [-3, 6, -3]);
    assert_eq!(ba, [3, -6, 3]);
    assert_eq!([-ba[0], -ba[1], -ba[2]], ab);
}

#[test]
fn cross_with_itself_is_zero() {
    let a = [7i64, -11, 13];
    assert_eq!(crossp(a, a), [0, 0, 0]);
}

#[test]
fn cross_of_parallel_vectors_is_zero() {
    let a = [2i64, -4, 6];
    let b = [3i64, -6, 9];
    assert_eq!(crossp(a, b), [0, 0, 0]);
}

#[test]
fn subtract_elementwise() {
    assert_eq!(sub_vec3([5, 7, 9], [1, 2, 3]), [4, 5, 6]);
}

#[test]
fn normal_of_unit_right_triangle() {
    let p0 = [0i64, 0, 0];
    let p1 = [1i64, 0, 0];
    let p2 = [0i64, 1, 0];
    assert_eq!(calc_normal(p0, p1, p2), [0, 0, 1]);
}

#[test]
fn normal_is_not_normalized() {
    let p0 = [0i64, 0, 0];
    let p1 = [2i64, 0, 0];
    let p2 = [0i64, 2, 0];
    assert_eq!(calc_normal(p0, p1, p2), [0, 0, 4]);
}

#[test]
fn matrix_product_with_identity() {
    let id = [
        [1i64, 0, 0, 0],
        [0, 1, 0, 0],
        [0, 0, 1, 0],
        [0, 0, 0, 1],
    ];
    let m = [
        [1i64, 2, 3, 4],
        [5, 6, 7, 8],
        [9, 10, 11, 12],
        [13, 14, 15, 16],
    ];
    assert_eq!(mul_mat4(id, m), m);
    assert_eq!(mul_mat4(m, id), m);
}

#[test]
fn matrix_product_row_by_column() {
    let a = [
        [1i64, 2, 0, 0],
        [0, 1, 0, 0],
        [0, 0, 1, 0],
        [0, 0, 0, 1],
    ];
    let b = [
        [1i64, 0, 0, 5],
        [3, 1, 0, 0],
        [0, 0, 1, 0],
        [0, 0, 0, 1],
    ];
    // row i of a dotted with column j of b, not an element-wise product
    let expect = [
        [7i64, 2, 0, 5],
        [3, 1, 0, 0],
        [0, 0, 1, 0],
        [0, 0, 0, 1],
    ];
    assert_eq!(mul_mat4(a, b), expect);
}
