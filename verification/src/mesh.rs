use vstd::prelude::*;
use crate::errors::GeomError;
use crate::scalar::{
    Scalar, find_in, skip_spaces_in, token_end_in, spec_parse_uint, spec_parse_scalar,
    find_byte, skip_spaces, token_end, parse_uint, parse_scalar,
};
use crate::scene::{Vector3, TexCoord, Vertex};

verus! {

/// One corner reference of a face line: a 1-based position index, and
/// optionally a texture-coordinate index and a normal index.
#[derive(Clone, Copy, Debug, PartialEq, Eq, Structural)]
pub struct FaceEntry {
    pub pos: i64,
    pub tex: Option<i64>,
    pub norm: Option<i64>,
}

/// The four streams a mesh description declares, in declaration order.
#[verifier::ext_equal]
pub struct MeshParts {
    pub positions: Seq<Vector3>,
    pub texcoords: Seq<TexCoord>,
    pub normals: Seq<Vector3>,
    pub faces: Seq<(FaceEntry, FaceEntry, FaceEntry)>,
}

pub open spec fn spec_empty_mesh() -> MeshParts {
    MeshParts {
        positions: Seq::empty(),
        texcoords: Seq::empty(),
        normals: Seq::empty(),
        faces: Seq::empty(),
    }
}

/// A face corner: `i`, `i/j`, `i//k` or `i/j/k`, each part an unsigned
/// integer token.
pub open spec fn spec_parse_entry(s: Seq<u8>, from: int, to: int) -> Option<FaceEntry> {
    let sl1 = find_in(s, from, to, 47);
    if sl1 == to {
        match spec_parse_uint(s, from, to) {
            None => None,
            Some(p) => Some(FaceEntry { pos: p, tex: None, norm: None }),
        }
    } else {
        match spec_parse_uint(s, from, sl1) {
            None => None,
            Some(p) => {
                let sl2 = find_in(s, sl1 + 1, to, 47);
                if sl2 == to {
                    match spec_parse_uint(s, sl1 + 1, to) {
                        None => None,
                        Some(t) => Some(FaceEntry { pos: p, tex: Some(t), norm: None }),
                    }
                } else {
                    match spec_parse_uint(s, sl2 + 1, to) {
                        None => None,
                        Some(nm) => if sl2 == sl1 + 1 {
                            Some(FaceEntry { pos: p, tex: None, norm: Some(nm) })
                        } else {
                            match spec_parse_uint(s, sl1 + 1, sl2) {
                                None => None,
                                Some(t) => Some(
                                    FaceEntry { pos: p, tex: Some(t), norm: Some(nm) },
                                ),
                            }
                        },
                    }
                }
            },
        }
    }
}

/// All remaining tokens of the line, each read as a decimal scalar.
pub open spec fn spec_scalars(s: Seq<u8>, from: int, to: int) -> Option<Seq<Scalar>>
    decreases to - from,
{
    let st = skip_spaces_in(s, from, to);
    if st >= to {
        Some(Seq::empty())
    } else {
        let en = token_end_in(s, st, to);
        // a token end always lies in (from, to]; the guard only bounds the recursion
        if en <= from || en > to {
            None
        } else {
            match spec_parse_scalar(s, st, en) {
                None => None,
                Some(v) => match spec_scalars(s, en, to) {
                    None => None,
                    Some(rest) => Some(seq![v] + rest),
                },
            }
        }
    }
}

/// All remaining tokens of the line, each read as a face corner.
pub open spec fn spec_entries(s: Seq<u8>, from: int, to: int) -> Option<Seq<FaceEntry>>
    decreases to - from,
{
    let st = skip_spaces_in(s, from, to);
    if st >= to {
        Some(Seq::empty())
    } else {
        let en = token_end_in(s, st, to);
        // a token end always lies in (from, to]; the guard only bounds the recursion
        if en <= from || en > to {
            None
        } else {
            match spec_parse_entry(s, st, en) {
                None => None,
                Some(v) => match spec_entries(s, en, to) {
                    None => None,
                    Some(rest) => Some(seq![v] + rest),
                },
            }
        }
    }
}

/// What one line `s[from..to]` contributes to the mesh.  A `v` line must
/// carry exactly three scalars, a `vt` line two, a `vn` line three; an `f`
/// line must carry exactly three corners — fewer is malformed, more is an
/// unsupported (non-triangle) primitive.  Blank lines and lines led by any
/// other keyword (comments, object and group names, material directives)
/// contribute nothing.
pub open spec fn spec_line(s: Seq<u8>, from: int, to: int, m: MeshParts) -> Result<
    MeshParts,
    GeomError,
> {
    let st0 = skip_spaces_in(s, from, to);
    if st0 >= to {
        Ok(m)
    } else {
        let t0e = token_end_in(s, st0, to);
        if t0e == st0 + 1 && s[st0] == 118 {
            // the token "v"
            match spec_scalars(s, t0e, to) {
                None => Err(GeomError::ParseError),
                Some(ss) => if ss.len() == 3 {
                    Ok(
                        MeshParts {
                            positions: m.positions.push(
                                Vector3 { x: ss[0], y: ss[1], z: ss[2] },
                            ),
                            ..m
                        },
                    )
                } else {
                    Err(GeomError::ParseError)
                },
            }
        } else if t0e == st0 + 2 && s[st0] == 118 && s[st0 + 1] == 116 {
            // the token "vt"
            match spec_scalars(s, t0e, to) {
                None => Err(GeomError::ParseError),
                Some(ss) => if ss.len() == 2 {
                    Ok(
                        MeshParts { texcoords: m.texcoords.push(TexCoord { u: ss[0], v: ss[1] }), ..m },
                    )
                } else {
                    Err(GeomError::ParseError)
                },
            }
        } else if t0e == st0 + 2 && s[st0] == 118 && s[st0 + 1] == 110 {
            // the token "vn"
            match spec_scalars(s, t0e, to) {
                None => Err(GeomError::ParseError),
                Some(ss) => if ss.len() == 3 {
                    Ok(
                        MeshParts {
                            normals: m.normals.push(Vector3 { x: ss[0], y: ss[1], z: ss[2] }),
                            ..m
                        },
                    )
                } else {
                    Err(GeomError::ParseError)
                },
            }
        } else if t0e == st0 + 1 && s[st0] == 102 {
            // the token "f"
            match spec_entries(s, t0e, to) {
                None => Err(GeomError::ParseError),
                Some(es) => if es.len() < 3 {
                    Err(GeomError::ParseError)
                } else if es.len() > 3 {
                    Err(GeomError::UnsupportedPrimitive)
                } else {
                    Ok(MeshParts { faces: m.faces.push((es[0], es[1], es[2])), ..m })
                },
            }
        } else {
            Ok(m)
        }
    }
}

/// Folds `spec_line` over the newline-separated lines of the whole stream.
pub open spec fn spec_scan(s: Seq<u8>, from: int, m: MeshParts) -> Result<MeshParts, GeomError>
    decreases s.len() - from,
{
    if from >= s.len() {
        Ok(m)
    } else {
        let e = find_in(s, from, s.len() as int, 10);
        match spec_line(s, from, e, m) {
            Err(err) => Err(err),
            // a line end always lies in [from, len]; the first test only bounds the recursion
            Ok(m2) => if e < from || e >= s.len() {
                Ok(m2)
            } else {
                spec_scan(s, e + 1, m2)
            },
        }
    }
}

/// Resolves one face corner against the declared streams.  The position
/// index must name a declared position; an absent texture coordinate
/// defaults to (0, 0) and an absent normal to (0, 0, 0); a present index out
/// of range is malformed.
pub open spec fn spec_resolve(m: MeshParts, e: FaceEntry) -> Result<Vertex, GeomError> {
    if !(1 <= e.pos && e.pos <= m.positions.len()) {
        Err(GeomError::ParseError)
    } else {
        let tex_ok = match e.tex {
            None => true,
            Some(t) => 1 <= t && t <= m.texcoords.len(),
        };
        let norm_ok = match e.norm {
            None => true,
            Some(t) => 1 <= t && t <= m.normals.len(),
        };
        if !tex_ok || !norm_ok {
            Err(GeomError::ParseError)
        } else {
            Ok(
                Vertex {
                    position: m.positions[e.pos - 1],
                    normal: match e.norm {
                        None => Vector3 {
                            x: Scalar { mant: 0, frac: 0 },
                            y: Scalar { mant: 0, frac: 0 },
                            z: Scalar { mant: 0, frac: 0 },
                        },
                        Some(t) => m.normals[t - 1],
                    },
                    texture: match e.tex {
                        None => TexCoord {
                            u: Scalar { mant: 0, frac: 0 },
                            v: Scalar { mant: 0, frac: 0 },
                        },
                        Some(t) => m.texcoords[t - 1],
                    },
                },
            )
        }
    }
}

/// Expands the faces from `k` on into a flat vertex list, three vertices per
/// triangle, corners in order, with no index buffer and no deduplication.
pub open spec fn spec_flatten_from(m: MeshParts, k: int) -> Result<Seq<Vertex>, GeomError>
    decreases m.faces.len() - k,
{
    if k < 0 || k >= m.faces.len() {
        Ok(Seq::empty())
    } else {
        match spec_resolve(m, m.faces[k].0) {
            Err(e) => Err(e),
            Ok(v0) => match spec_resolve(m, m.faces[k].1) {
                Err(e) => Err(e),
                Ok(v1) => match spec_resolve(m, m.faces[k].2) {
                    Err(e) => Err(e),
                    Ok(v2) => match spec_flatten_from(m, k + 1) {
                        Err(e) => Err(e),
                        Ok(rest) => Ok(seq![v0, v1, v2] + rest),
                    },
                },
            },
        }
    }
}

/// The meaning of a whole mesh byte stream: scan every line, then flatten
/// the faces.
pub open spec fn spec_load_wavefront(data: Seq<u8>) -> Result<Seq<Vertex>, GeomError> {
    match spec_scan(data, 0, spec_empty_mesh()) {
        Err(e) => Err(e),
        Ok(m) => spec_flatten_from(m, 0),
    }
}

struct MeshState {
    positions: Vec<Vector3>,
    texcoords: Vec<TexCoord>,
    normals: Vec<Vector3>,
    faces: Vec<(FaceEntry, FaceEntry, FaceEntry)>,
}

spec fn mesh_view(st: MeshState) -> MeshParts {
    MeshParts {
        positions: st.positions@,
        texcoords: st.texcoords@,
        normals: st.normals@,
        faces: st.faces@,
    }
}

fn collect_scalars(data: &[u8], from: usize, to: usize) -> (r: Option<Vec<Scalar>>)
    requires
        from <= to <= data@.len(),
    ensures
        match spec_scalars(data@, from as int, to as int) {
            None => r is None,
            Some(ss) => r matches Some(v) && v@ == ss,
        },
{
    let mut out: Vec<Scalar> = Vec::new();
    let mut cur = from;
    loop
        invariant
            from <= cur <= to <= data@.len(),
            spec_scalars(data@, from as int, to as int) == (match spec_scalars(
                data@,
                cur as int,
                to as int,
            ) {
                None => Option::<Seq<Scalar>>::None,
                Some(rest) => Some(out@ + rest),
            }),
        decreases to - cur,
    {
        let st = skip_spaces(data, cur, to);
        if st >= to {
            proof {
                assert(out@ + Seq::<Scalar>::empty() =~= out@);
            }
            return Some(out);
        }
        let en = token_end(data, st, to);
        match parse_scalar(data, st, en) {
            None => {
                return None;
            },
            Some(sc) => {
                let ghost old_out = out@;
                out.push(sc);
                proof {
                    match spec_scalars(data@, en as int, to as int) {
                        None => {},
                        Some(rest) => {
                            assert(old_out + (seq![sc] + rest) =~= out@ + rest);
                        },
                    }
                }
                cur = en;
            },
        }
    }
}

fn collect_entries(data: &[u8], from: usize, to: usize) -> (r: Option<Vec<FaceEntry>>)
    requires
        from <= to <= data@.len(),
    ensures
        match spec_entries(data@, from as int, to as int) {
            None => r is None,
            Some(ss) => r matches Some(v) && v@ == ss,
        },
{
    let mut out: Vec<FaceEntry> = Vec::new();
    let mut cur = from;
    loop
        invariant
            from <= cur <= to <= data@.len(),
            spec_entries(data@, from as int, to as int) == (match spec_entries(
                data@,
                cur as int,
                to as int,
            ) {
                None => Option::<Seq<FaceEntry>>::None,
                Some(rest) => Some(out@ + rest),
            }),
        decreases to - cur,
    {
        let st = skip_spaces(data, cur, to);
        if st >= to {
            proof {
                assert(out@ + Seq::<FaceEntry>::empty() =~= out@);
            }
            return Some(out);
        }
        let en = token_end(data, st, to);
        match parse_entry(data, st, en) {
            None => {
                return None;
            },
            Some(fe) => {
                let ghost old_out = out@;
                out.push(fe);
                proof {
                    match spec_entries(data@, en as int, to as int) {
                        None => {},
                        Some(rest) => {
                            assert(old_out + (seq![fe] + rest) =~= out@ + rest);
                        },
                    }
                }
                cur = en;
            },
        }
    }
}

fn parse_entry(data: &[u8], from: usize, to: usize) -> (r: Option<FaceEntry>)
    requires
        from <= to <= data@.len(),
    ensures
        r == spec_parse_entry(data@, from as int, to as int),
{
    let sl1 = find_byte(data, from, to, 47);
    if sl1 == to {
        match parse_uint(data, from, to) {
            None => None,
            Some(p) => Some(FaceEntry { pos: p, tex: None, norm: None }),
        }
    } else {
        match parse_uint(data, from, sl1) {
            None => None,
            Some(p) => {
                let sl2 = find_byte(data, sl1 + 1, to, 47);
                if sl2 == to {
                    match parse_uint(data, sl1 + 1, to) {
                        None => None,
                        Some(t) => Some(FaceEntry { pos: p, tex: Some(t), norm: None }),
                    }
                } else {
                    match parse_uint(data, sl2 + 1, to) {
                        None => None,
                        Some(nm) => {
                            if sl2 == sl1 + 1 {
                                Some(FaceEntry { pos: p, tex: None, norm: Some(nm) })
                            } else {
                                match parse_uint(data, sl1 + 1, sl2) {
                                    None => None,
                                    Some(t) => Some(
                                        FaceEntry { pos: p, tex: Some(t), norm: Some(nm) },
                                    ),
                                }
                            }
                        },
                    }
                }
            },
        }
    }
}

fn parse_line(data: &[u8], from: usize, to: usize, st: &mut MeshState) -> (r: Result<
    (),
    GeomError,
>)
    requires
        from <= to <= data@.len(),
    ensures
        match spec_line(data@, from as int, to as int, mesh_view(*old(st))) {
            Ok(m2) => r matches Ok(u) && mesh_view(*final(st)) == m2,
            Err(e) => r == Err::<(), GeomError>(e),
        },
{
    let st0 = skip_spaces(data, from, to);
    if st0 >= to {
        return Ok(());
    }
    let t0e = token_end(data, st0, to);
    let c0 = data[st0];
    let tlen = t0e - st0;
    if tlen == 1 && c0 == 118 {
        match collect_scalars(data, t0e, to) {
            None => Err(GeomError::ParseError),
            Some(vals) => {
                if vals.len() == 3 {
                    st.positions.push(Vector3 { x: vals[0], y: vals[1], z: vals[2] });
                    Ok(())
                } else {
                    Err(GeomError::ParseError)
                }
            },
        }
    } else if tlen == 2 && c0 == 118 && data[st0 + 1] == 116 {
        match collect_scalars(data, t0e, to) {
            None => Err(GeomError::ParseError),
            Some(vals) => {
                if vals.len() == 2 {
                    st.texcoords.push(TexCoord { u: vals[0], v: vals[1] });
                    Ok(())
                } else {
                    Err(GeomError::ParseError)
                }
            },
        }
    } else if tlen == 2 && c0 == 118 && data[st0 + 1] == 110 {
        match collect_scalars(data, t0e, to) {
            None => Err(GeomError::ParseError),
            Some(vals) => {
                if vals.len() == 3 {
                    st.normals.push(Vector3 { x: vals[0], y: vals[1], z: vals[2] });
                    Ok(())
                } else {
                    Err(GeomError::ParseError)
                }
            },
        }
    } else if tlen == 1 && c0 == 102 {
        match collect_entries(data, t0e, to) {
            None => Err(GeomError::ParseError),
            Some(es) => {
                if es.len() < 3 {
                    Err(GeomError::ParseError)
                } else if es.len() > 3 {
                    Err(GeomError::UnsupportedPrimitive)
                } else {
                    st.faces.push((es[0], es[1], es[2]));
                    Ok(())
                }
            },
        }
    } else {
        Ok(())
    }
}

fn resolve_entry(st: &MeshState, e: FaceEntry) -> (r: Result<Vertex, GeomError>)
    ensures
        r == spec_resolve(mesh_view(*st), e),
{
    if !(1 <= e.pos && (e.pos as u64) <= (st.positions.len() as u64)) {
        return Err(GeomError::ParseError);
    }
    let tex_ok = match e.tex {
        None => true,
        Some(t) => 1 <= t && (t as u64) <= (st.texcoords.len() as u64),
    };
    let norm_ok = match e.norm {
        None => true,
        Some(t) => 1 <= t && (t as u64) <= (st.normals.len() as u64),
    };
    if !tex_ok || !norm_ok {
        return Err(GeomError::ParseError);
    }
    Ok(
        Vertex {
            position: st.positions[(e.pos - 1) as usize],
            normal: match e.norm {
                None => Vector3::zero(),
                Some(t) => st.normals[(t - 1) as usize],
            },
            texture: match e.tex {
                None => TexCoord { u: Scalar::zero(), v: Scalar::zero() },
                Some(t) => st.texcoords[(t - 1) as usize],
            },
        },
    )
}

fn flatten(st: &MeshState) -> (r: Result<Vec<Vertex>, GeomError>)
    ensures
        match spec_flatten_from(mesh_view(*st), 0) {
            Ok(vs) => r matches Ok(v) && v@ == vs,
            Err(e) => r == Err::<Vec<Vertex>, GeomError>(e),
        },
{
    let mut out: Vec<Vertex> = Vec::new();
    let mut k: usize = 0;
    let n = st.faces.len();
    while k < n
        invariant
            k <= n,
            n == st.faces@.len(),
            spec_flatten_from(mesh_view(*st), 0) == (match spec_flatten_from(
                mesh_view(*st),
                k as int,
            ) {
                Err(e) => Result::<Seq<Vertex>, GeomError>::Err(e),
                Ok(rest) => Ok(out@ + rest),
            }),
        decreases n - k,
    {
        let face = st.faces[k];
        let v0 = match resolve_entry(st, face.0) {
            Ok(v) => v,
            Err(e) => {
                return Err(e);
            },
        };
        let v1 = match resolve_entry(st, face.1) {
            Ok(v) => v,
            Err(e) => {
                return Err(e);
            },
        };
        let v2 = match resolve_entry(st, face.2) {
            Ok(v) => v,
            Err(e) => {
                return Err(e);
            },
        };
        let ghost old_out = out@;
        out.push(v0);
        out.push(v1);
        out.push(v2);
        proof {
            match spec_flatten_from(mesh_view(*st), k as int + 1) {
                Err(e) => {},
                Ok(rest) => {
                    assert(old_out + (seq![v0, v1, v2] + rest) =~= out@ + rest);
                },
            }
        }
        k = k + 1;
    }
    proof {
        assert(out@ + Seq::<Vertex>::empty() =~= out@);
    }
    Ok(out)
}

/// Parses a triangulated, wavefront-style mesh description into the flat
/// vertex list a renderer consumes as a triangle list.
///
/// Each triangle contributes exactly three vertices, one per corner, each
/// combining the corner's position with its texture coordinate (default
/// (0, 0) when absent) and its normal (default (0, 0, 0) when absent);
/// shared corners are duplicated, never indexed.  A malformed stream is
/// rejected with `ParseError`; a face that is not a triangle is rejected
/// with `UnsupportedPrimitive`.  `spec_load_wavefront` states the accepted
/// grammar and the produced vertex list exactly.
pub fn load_wavefront(data: &[u8]) -> (r: Result<Vec<Vertex>, GeomError>)
    ensures
        match spec_load_wavefront(data@) {
            Ok(vs) => r matches Ok(v) && v@ == vs,
            Err(e) => r == Err::<Vec<Vertex>, GeomError>(e),
        },
{
    let n = data.len();
    let mut st = MeshState {
        positions: Vec::new(),
        texcoords: Vec::new(),
        normals: Vec::new(),
        faces: Vec::new(),
    };
    proof {
        assert(mesh_view(st) =~= spec_empty_mesh());
    }
    let mut pos: usize = 0;
    while pos < n
        invariant
            pos <= n,
            n == data@.len(),
            spec_scan(data@, 0, spec_empty_mesh()) == spec_scan(data@, pos as int, mesh_view(st)),
        decreases n - pos,
    {
        let e = find_byte(data, pos, n, 10);
        match parse_line(data, pos, e, &mut st) {
            Err(er) => {
                return Err(er);
            },
            Ok(_) => {},
        }
        if e >= n {
            pos = n;
        } else {
            pos = e + 1;
        }
    }
    match flatten(&st) {
        Err(e) => Err(e),
        Ok(v) => Ok(v),
    }
}

} // verus!
