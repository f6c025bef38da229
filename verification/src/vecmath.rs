use vstd::prelude::*;
use crate::errors::GeomError;

verus! {

/// A 4x4 matrix, row-major, over exact 64-bit coordinates.
pub type Matrix4 = [[i64; 4]; 4];

/// Coordinates accepted by the vector operations.  The bound is a machine
/// limit, not part of the geometry: it keeps every product and sum of the
/// operations below exact in 64 bits.
pub open spec fn in_coord_range(x: int) -> bool {
    -0x2000_0000 <= x && x <= 0x2000_0000
}

/// Edge vectors (differences of two coordinates) may be twice as large.
pub open spec fn in_edge_range(x: int) -> bool {
    -0x4000_0000 <= x && x <= 0x4000_0000
}

pub open spec fn vec_in_coord_range(s: Seq<i64>) -> bool {
    forall|i: int| 0 <= i < s.len() ==> in_coord_range(#[trigger] s[i] as int)
}

pub open spec fn vec3_in_coord_range(a: [i64; 3]) -> bool {
    in_coord_range(a@[0] as int) && in_coord_range(a@[1] as int) && in_coord_range(a@[2] as int)
}

pub open spec fn vec3_in_edge_range(a: [i64; 3]) -> bool {
    in_edge_range(a@[0] as int) && in_edge_range(a@[1] as int) && in_edge_range(a@[2] as int)
}

pub open spec fn mat_in_coord_range(m: Matrix4) -> bool {
    forall|i: int, j: int|
        0 <= i < 4 && 0 <= j < 4 ==> in_coord_range(#[trigger] (m@[i]@[j]) as int)
}

/// The three components of a vector, as unbounded integers.
pub open spec fn vec3_view(a: [i64; 3]) -> (int, int, int) {
    (a@[0] as int, a@[1] as int, a@[2] as int)
}

/// Sum of pairwise products; reads as many pairs as the shorter vector has.
pub open spec fn spec_dot(a: Seq<i64>, b: Seq<i64>) -> int
    decreases a.len(),
{
    if a.len() == 0 || b.len() == 0 {
        0
    } else {
        a[0] * b[0] + spec_dot(a.skip(1), b.skip(1))
    }
}

/// The standard 3-dimensional cross product.
pub open spec fn spec_cross(a: (int, int, int), b: (int, int, int)) -> (int, int, int) {
    (a.1 * b.2 - a.2 * b.1, a.2 * b.0 - a.0 * b.2, a.0 * b.1 - a.1 * b.0)
}

/// Element-wise difference.
pub open spec fn spec_sub(a: (int, int, int), b: (int, int, int)) -> (int, int, int) {
    (a.0 - b.0, a.1 - b.1, a.2 - b.2)
}

/// The (unnormalized) normal of the triangle p0-p1-p2.
pub open spec fn spec_face_normal(p0: (int, int, int), p1: (int, int, int), p2: (int, int, int)) -> (int, int, int) {
    spec_cross(spec_sub(p1, p0), spec_sub(p2, p0))
}

/// Cell (i, j) of the row-by-column product of two 4x4 matrices.
pub open spec fn spec_mat_cell(a: Matrix4, b: Matrix4, i: int, j: int) -> int {
    (a@[i]@[0] * b@[0]@[j]) + (a@[i]@[1] * b@[1]@[j]) + (a@[i]@[2] * b@[2]@[j]) + (a@[i]@[3]
        * b@[3]@[j])
}

proof fn lemma_mul_bound(x: int, y: int, bx: int, by: int)
    by (nonlinear_arith)
    requires
        -bx <= x <= bx,
        -by <= y <= by,
        0 <= bx,
        0 <= by,
    ensures
        -(bx * by) <= x * y <= bx * by,
{
}

/// Returns the dot product of two vectors, or `DimensionMismatch` when their
/// lengths differ.  The result is exact: no wrap, no rounding.
pub fn dotp(this: &[i64], other: &[i64]) -> (r: Result<i128, GeomError>)
    requires
        vec_in_coord_range(this@),
        vec_in_coord_range(other@),
    ensures
        this@.len() == other@.len() ==> (r matches Ok(s) && s as int == spec_dot(this@, other@)),
        this@.len() != other@.len() ==> r == Err::<i128, GeomError>(GeomError::DimensionMismatch),
{
    if this.len() != other.len() {
        return Err(GeomError::DimensionMismatch);
    }
    let n = this.len();
    let mut acc: i128 = 0;
    let mut i: usize = 0;
    proof {
        assert(this@.skip(0) =~= this@);
        assert(other@.skip(0) =~= other@);
    }
    while i < n
        invariant
            n == this@.len() && n == other@.len(),
            i <= n,
            vec_in_coord_range(this@),
            vec_in_coord_range(other@),
            spec_dot(this@, other@) == acc + spec_dot(this@.skip(i as int), other@.skip(i as int)),
            -((i as int) * 0x400_0000_0000_0000) <= acc as int <= (i as int) * 0x400_0000_0000_0000,
        decreases n - i,
    {
        proof {
            lemma_mul_bound(this@[i as int] as int, other@[i as int] as int, 0x2000_0000, 0x2000_0000);
            assert(this@.skip(i as int).skip(1) =~= this@.skip(i as int + 1));
            assert(other@.skip(i as int).skip(1) =~= other@.skip(i as int + 1));
        }
        let p: i128 = (this[i] as i128) * (other[i] as i128);
        acc = acc + p;
        i = i + 1;
    }
    proof {
        assert(this@.skip(n as int).len() == 0);
    }
    Ok(acc)
}

/// Returns the cross product of two vectors.
pub fn crossp(a: [i64; 3], b: [i64; 3]) -> (r: [i64; 3])
    requires
        vec3_in_edge_range(a),
        vec3_in_edge_range(b),
    ensures
        vec3_view(r) == spec_cross(vec3_view(a), vec3_view(b)),
{
    proof {
        lemma_mul_bound(a@[1] as int, b@[2] as int, 0x4000_0000, 0x4000_0000);
        lemma_mul_bound(a@[2] as int, b@[1] as int, 0x4000_0000, 0x4000_0000);
        lemma_mul_bound(a@[2] as int, b@[0] as int, 0x4000_0000, 0x4000_0000);
        lemma_mul_bound(a@[0] as int, b@[2] as int, 0x4000_0000, 0x4000_0000);
        lemma_mul_bound(a@[0] as int, b@[1] as int, 0x4000_0000, 0x4000_0000);
        lemma_mul_bound(a@[1] as int, b@[0] as int, 0x4000_0000, 0x4000_0000);
    }
    [
        (a[1] * b[2]) - (a[2] * b[1]),
        (a[2] * b[0]) - (a[0] * b[2]),
        (a[0] * b[1]) - (a[1] * b[0]),
    ]
}

/// Returns the element-wise difference a - b.
pub fn sub_vec3(a: [i64; 3], b: [i64; 3]) -> (r: [i64; 3])
    requires
        vec3_in_coord_range(a),
        vec3_in_coord_range(b),
    ensures
        vec3_view(r) == spec_sub(vec3_view(a), vec3_view(b)),
        vec3_in_edge_range(r),
{
    [a[0] - b[0], a[1] - b[1], a[2] - b[2]]
}

/// Returns the normal of the triangle spanned by the three points, computed
/// as `cross(p1 - p0, p2 - p0)`.  The result is deliberately not normalized:
/// callers needing a unit normal must normalize explicitly.
pub fn calc_normal(p0: [i64; 3], p1: [i64; 3], p2: [i64; 3]) -> (r: [i64; 3])
    requires
        vec3_in_coord_range(p0),
        vec3_in_coord_range(p1),
        vec3_in_coord_range(p2),
    ensures
        vec3_view(r) == spec_face_normal(vec3_view(p0), vec3_view(p1), vec3_view(p2)),
{
    let a = sub_vec3(p1, p0);
    let b = sub_vec3(p2, p0);
    crossp(a, b)
}

fn mat_cell(a: &Matrix4, b: &Matrix4, i: usize, j: usize) -> (r: i64)
    requires
        mat_in_coord_range(*a),
        mat_in_coord_range(*b),
        i < 4,
        j < 4,
    ensures
        r as int == spec_mat_cell(*a, *b, i as int, j as int),
{
    proof {
        lemma_mul_bound(a@[i as int]@[0] as int, b@[0]@[j as int] as int, 0x2000_0000, 0x2000_0000);
        lemma_mul_bound(a@[i as int]@[1] as int, b@[1]@[j as int] as int, 0x2000_0000, 0x2000_0000);
        lemma_mul_bound(a@[i as int]@[2] as int, b@[2]@[j as int] as int, 0x2000_0000, 0x2000_0000);
        lemma_mul_bound(a@[i as int]@[3] as int, b@[3]@[j as int] as int, 0x2000_0000, 0x2000_0000);
    }
    (a[i][0] * b[0][j]) + (a[i][1] * b[1][j]) + (a[i][2] * b[2][j]) + (a[i][3] * b[3][j])
}

/// Returns the matrix product of two 4x4 matrices: every cell is the dot
/// product of a row of `a` with a column of `b`.
pub fn mul_mat4(a: Matrix4, b: Matrix4) -> (r: Matrix4)
    requires
        mat_in_coord_range(a),
        mat_in_coord_range(b),
    ensures
        forall|i: int, j: int|
            0 <= i < 4 && 0 <= j < 4 ==> #[trigger] (r@[i]@[j]) as int == spec_mat_cell(a, b, i, j),
{
    let r: Matrix4 = [
        [mat_cell(&a, &b, 0, 0), mat_cell(&a, &b, 0, 1), mat_cell(&a, &b, 0, 2), mat_cell(&a, &b, 0, 3)],
        [mat_cell(&a, &b, 1, 0), mat_cell(&a, &b, 1, 1), mat_cell(&a, &b, 1, 2), mat_cell(&a, &b, 1, 3)],
        [mat_cell(&a, &b, 2, 0), mat_cell(&a, &b, 2, 1), mat_cell(&a, &b, 2, 2), mat_cell(&a, &b, 2, 3)],
        [mat_cell(&a, &b, 3, 0), mat_cell(&a, &b, 3, 1), mat_cell(&a, &b, 3, 2), mat_cell(&a, &b, 3, 3)],
    ];
    r
}

/// The dot product is symmetric in its two operands.
pub proof fn lemma_dot_comm(a: Seq<i64>, b: Seq<i64>)
    requires
        a.len() == b.len(),
    ensures
        spec_dot(a, b) == spec_dot(b, a),
    decreases a.len(),
{
    if a.len() != 0 {
        lemma_dot_comm(a.skip(1), b.skip(1));
    }
}

/// The cross product is anti-commutative: swapping the operands negates
/// every component of the result.
pub proof fn lemma_cross_antisym(a: (int, int, int), b: (int, int, int))
    ensures
        spec_cross(a, b).0 == -spec_cross(b, a).0,
        spec_cross(a, b).1 == -spec_cross(b, a).1,
        spec_cross(a, b).2 == -spec_cross(b, a).2,
{
}

/// The cross product of a vector with itself is the zero vector.
pub proof fn lemma_cross_self(a: (int, int, int))
    ensures
        spec_cross(a, a) == (0int, 0int, 0int),
{
}

} // verus!
