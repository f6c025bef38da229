use geom_core::errors::GeomError;
use geom_core::mesh::load_wavefront;
use geom_core::scalar::Scalar;
use geom_core::scene::{TexCoord, Vector3};

fn sc(mant: i64, frac: u8) -> Scalar {
    Scalar { mant, frac }
}

fn zero3() -> Vector3 {
    Vector3 { x: sc(0, 0), y: sc(0, 0), z: sc(0, 0) }
}

#[test]
fn one_triangle_with_defaults() {
    let data = b"v 0 0 0\nv 1 0 0\nv 0 1 0\nf 1 2 3\n";
    let verts = load_wavefront(data).unwrap();
    assert_eq!(verts.len(), 3);
    for v in &verts {
        assert_eq!(v.texture, TexCoord { u: sc(0, 0), v: sc(0, 0) });
        assert_eq!(v.normal, zero3());
    }
    assert_eq!(verts[0].position, zero3());
    assert_eq!(verts[1].position, Vector3 { x: sc(1, 0), y: sc(0, 0), z: sc(0, 0) });
    assert_eq!(verts[2].position, Vector3 { x: sc(0, 0), y: sc(1, 0), z: sc(0, 0) });
}

#[test]
fn quad_face_is_unsupported() {
    let data = b"v 0 0 0\nv 1 0 0\nv 1 1 0\nv 0 1 0\nf 1 2 3 4\n";
    assert_eq!(load_wavefront(data), Err(GeomError::UnsupportedPrimitive));
}

#[test]
fn face_with_two_corners_is_malformed() {
    let data = b"v 0 0 0\nv 1 0 0\nf 1 2\n";
    assert_eq!(load_wavefront(data), Err(GeomError::ParseError));
}

#[test]
fn face_index_out_of_range() {
    let data = b"v 0 0 0\nv 1 0 0\nv 0 1 0\nf 1 2 4\n";
    assert_eq!(load_wavefront(data), Err(GeomError::ParseError));
}

#[test]
fn texture_and_normal_indices_resolved() {
    let data = b"v 0 0 0\nv 1 0 0\nv 0 1 0\nvt 0.5 0.25\nvn 0 0 1\nf 1/1/1 2/1/1 3/1/1\n";
    let verts = load_wavefront(data).unwrap();
    assert_eq!(verts.len(), 3);
    for v in &verts {
        assert_eq!(v.texture, TexCoord { u: sc(5, 1), v: sc(25, 2) });
        assert_eq!(v.normal, Vector3 { x: sc(0, 0), y: sc(0, 0), z: sc(1, 0) });
    }
}

#[test]
fn normal_without_texture_uses_double_slash() {
    let data = b"v 0 0 0\nv 1 0 0\nv 0 1 0\nvn 0 1 0\nf 1//1 2//1 3//1\n";
    let verts = load_wavefront(data).unwrap();
    assert_eq!(verts.len(), 3);
    for v in &verts {
        assert_eq!(v.texture, TexCoord { u: sc(0, 0), v: sc(0, 0) });
        assert_eq!(v.normal, Vector3 { x: sc(0, 0), y: sc(1, 0), z: sc(0, 0) });
    }
}

#[test]
fn decimal_and_signed_coordinates() {
    let data = b"v 1.5 -2.25 +3\nf 1 1 1\n";
    let verts = load_wavefront(data).unwrap();
    assert_eq!(verts[0].position, Vector3 { x: sc(15, 1), y: sc(-225, 2), z: sc(3, 0) });
}

#[test]
fn shared_corners_are_duplicated_not_indexed() {
    let data = b"v 0 0 0\nv 1 0 0\nv 0 1 0\nv 1 1 0\nf 1 2 3\nf 2 4 3\n";
    let verts = load_wavefront(data).unwrap();
    assert_eq!(verts.len(), 6);
    assert_eq!(verts[1].position, verts[3].position);
    assert_eq!(verts[2].position, verts[5].position);
}

#[test]
fn comments_and_foreign_lines_are_ignored() {
    let data = b"# a comment\no thing\ns off\nusemtl stone\nv 0 0 0\nf 1 1 1\n";
    let verts = load_wavefront(data).unwrap();
    assert_eq!(verts.len(), 3);
}

#[test]
fn empty_input_yields_no_vertices() {
    let verts = load_wavefront(b"").unwrap();
    assert_eq!(verts.len(), 0);
}

#[test]
fn missing_final_newline_is_fine() {
    let data = b"v 0 0 0\nf 1 1 1";
    let verts = load_wavefront(data).unwrap();
    assert_eq!(verts.len(), 3);
}

#[test]
fn carriage_returns_are_tolerated() {
    let data = b"v 0 0 0\r\nf 1 1 1\r\n";
    let verts = load_wavefront(data).unwrap();
    assert_eq!(verts.len(), 3);
}

#[test]
fn non_numeric_coordinate_is_malformed() {
    assert_eq!(load_wavefront(b"v a b c\nf 1 1 1\n"), Err(GeomError::ParseError));
}

#[test]
fn wrong_coordinate_count_is_malformed() {
    assert_eq!(load_wavefront(b"v 1 2\n"), Err(GeomError::ParseError));
    assert_eq!(load_wavefront(b"v 1 2 3 4\n"), Err(GeomError::ParseError));
    assert_eq!(load_wavefront(b"vt 1\n"), Err(GeomError::ParseError));
    assert_eq!(load_wavefront(b"vn 1 2\n"), Err(GeomError::ParseError));
}

#[test]
fn too_many_digits_is_malformed() {
    assert_eq!(load_wavefront(b"v 1234567890123456789 0 0\n"), Err(GeomError::ParseError));
}

#[test]
fn eighteen_digits_are_exact() {
    let data = b"v 999999999999999999 0.1234567890123456 0\nf 1 1 1\n";
    let verts = load_wavefront(data).unwrap();
    assert_eq!(verts[0].position.x, sc(999_999_999_999_999_999, 0));
    assert_eq!(verts[0].position.y, sc(1_234_567_890_123_456, 16));
}

#[test]
fn bare_point_or_lone_fraction_is_malformed() {
    assert_eq!(load_wavefront(b"v .5 0 0\n"), Err(GeomError::ParseError));
    assert_eq!(load_wavefront(b"v 1. 0 0\n"), Err(GeomError::ParseError));
    assert_eq!(load_wavefront(b"v - 0 0\n"), Err(GeomError::ParseError));
}

#[test]
fn trailing_slash_in_face_is_malformed() {
    assert_eq!(load_wavefront(b"v 0 0 0\nf 1/2/ 1 1\n"), Err(GeomError::ParseError));
}

#[test]
fn zero_face_index_is_malformed() {
    assert_eq!(load_wavefront(b"v 0 0 0\nf 0 1 1\n"), Err(GeomError::ParseError));
}

#[test]
fn forward_references_are_resolved_after_the_whole_file() {
    let data = b"f 1 2 3\nv 0 0 0\nv 1 0 0\nv 0 1 0\n";
    let verts = load_wavefront(data).unwrap();
    assert_eq!(verts.len(), 3);
}
