use vstd::prelude::*;

verus! {

/// Every failure the geometric core reports to its caller.
///
/// All errors are local and synchronous: they are returned to the immediate
/// caller and never retried internally.  A malformed mesh is a scoped,
/// per-asset failure, not a process-wide fault.
#[derive(Clone, Copy, Debug, PartialEq, Eq, Structural)]
pub enum GeomError {
    /// A vector operation was applied to vectors of unequal length.
    DimensionMismatch,
    /// A projection was requested with a non-positive near plane, a far plane
    /// not beyond the near plane, or a field of view outside (0, 180) degrees.
    InvalidProjectionParams,
    /// A mesh byte stream is malformed: a bad numeric token, a vertex line
    /// with the wrong number of components, or a face index out of range.
    ParseError,
    /// A mesh face is not a triangle; polygons are rejected, not triangulated.
    UnsupportedPrimitive,
    /// A finalize step ran before a required field was supplied.
    MissingRequiredField,
}

} // verus!
