use vstd::prelude::*;
use crate::errors::GeomError;
use crate::scalar::Scalar;

verus! {

/// An ordered triple of exact decimal scalars.
#[derive(Clone, Copy, Debug, PartialEq, Eq, Structural)]
pub struct Vector3 {
    pub x: Scalar,
    pub y: Scalar,
    pub z: Scalar,
}

impl Vector3 {
    /// The origin, the default position of a transform.
    pub fn zero() -> (r: Vector3)
        ensures
            r == (Vector3 { x: Scalar { mant: 0, frac: 0 }, y: Scalar { mant: 0, frac: 0 }, z: Scalar { mant: 0, frac: 0 } }),
    {
        Vector3 { x: Scalar::zero(), y: Scalar::zero(), z: Scalar::zero() }
    }

    /// The unit scale (1, 1, 1), the default scale of a transform.
    pub fn unit_scale() -> (r: Vector3)
        ensures
            r == (Vector3 { x: Scalar { mant: 1, frac: 0 }, y: Scalar { mant: 1, frac: 0 }, z: Scalar { mant: 1, frac: 0 } }),
    {
        Vector3 { x: Scalar::one(), y: Scalar::one(), z: Scalar::one() }
    }
}

/// A rotation, stored as the four components of a quaternion.  The
/// conversion routines of the engine keep it normalized; this core only
/// carries it as placement data.
#[derive(Clone, Copy, Debug, PartialEq, Eq, Structural)]
pub struct Quaternion {
    pub x: Scalar,
    pub y: Scalar,
    pub z: Scalar,
    pub w: Scalar,
}

impl Quaternion {
    /// The identity rotation (0, 0, 0, 1), the default of a transform.
    pub fn identity() -> (r: Quaternion)
        ensures
            r == (Quaternion {
                x: Scalar { mant: 0, frac: 0 },
                y: Scalar { mant: 0, frac: 0 },
                z: Scalar { mant: 0, frac: 0 },
                w: Scalar { mant: 1, frac: 0 },
            }),
    {
        Quaternion { x: Scalar::zero(), y: Scalar::zero(), z: Scalar::zero(), w: Scalar::one() }
    }
}

/// A two-dimensional texture coordinate.
#[derive(Clone, Copy, Debug, PartialEq, Eq, Structural)]
pub struct TexCoord {
    pub u: Scalar,
    pub v: Scalar,
}

/// One corner of a triangle, as mesh ingestion emits it: a position, a
/// normal, and a texture coordinate.  Immutable once created.
#[derive(Clone, Copy, Debug, PartialEq, Eq, Structural)]
pub struct Vertex {
    pub position: Vector3,
    pub normal: Vector3,
    pub texture: TexCoord,
}

/// One placement of a mesh: position, rotation and scale.  A transform owns
/// no vertex data; many transforms may place the same mesh.
#[derive(Clone, Copy, Debug, PartialEq, Eq, Structural)]
pub struct Transform {
    pub position: Vector3,
    pub rotation: Quaternion,
    pub scale: Vector3,
}

/// Rendering attributes of an item; opaque to this core beyond the shader
/// identifier it carries.
#[derive(Clone, Debug, PartialEq, Eq)]
pub struct Material {
    pub shader_name: String,
}

/// A mesh bound to a material and one or more instance placements.  The item
/// owns its vertex list and its transform list; one item with n transforms
/// is drawn n times.
#[derive(Clone, Debug, PartialEq, Eq)]
pub struct RenderItem {
    pub name: String,
    pub vertices: Vec<Vertex>,
    pub material: Material,
    pub instance_transforms: Vec<Transform>,
}

/// Configuration for a transform.  Every field is optional; `finalize` fills
/// the documented default for each field left unset.
#[derive(Clone, Copy, Debug, PartialEq, Eq, Structural)]
pub struct TransformConfig {
    pub position: Option<Vector3>,
    pub rotation: Option<Quaternion>,
    pub scale: Option<Vector3>,
}

impl TransformConfig {
    /// A configuration with nothing set.
    pub fn new() -> (r: TransformConfig)
        ensures
            r == (TransformConfig { position: None, rotation: None, scale: None }),
    {
        TransformConfig { position: None, rotation: None, scale: None }
    }

    /// Builds the transform: position defaults to the origin, rotation to the
    /// identity quaternion, scale to (1, 1, 1).  No field is required, so
    /// this step cannot fail.
    pub fn finalize(self) -> (r: Transform)
        ensures
            self.position matches Some(p) ==> r.position == p,
            self.position is None ==> r.position == (Vector3 {
                x: Scalar { mant: 0, frac: 0 },
                y: Scalar { mant: 0, frac: 0 },
                z: Scalar { mant: 0, frac: 0 },
            }),
            self.rotation matches Some(q) ==> r.rotation == q,
            self.rotation is None ==> r.rotation == (Quaternion {
                x: Scalar { mant: 0, frac: 0 },
                y: Scalar { mant: 0, frac: 0 },
                z: Scalar { mant: 0, frac: 0 },
                w: Scalar { mant: 1, frac: 0 },
            }),
            self.scale matches Some(s) ==> r.scale == s,
            self.scale is None ==> r.scale == (Vector3 {
                x: Scalar { mant: 1, frac: 0 },
                y: Scalar { mant: 1, frac: 0 },
                z: Scalar { mant: 1, frac: 0 },
            }),
    {
        let position = match self.position {
            Some(p) => p,
            None => Vector3::zero(),
        };
        let rotation = match self.rotation {
            Some(q) => q,
            None => Quaternion::identity(),
        };
        let scale = match self.scale {
            Some(s) => s,
            None => Vector3::unit_scale(),
        };
        Transform { position, rotation, scale }
    }
}

/// Configuration for a material.  The shader name is required.
#[derive(Clone, Debug, PartialEq, Eq)]
pub struct MaterialConfig {
    pub shader_name: Option<String>,
}

impl MaterialConfig {
    /// A configuration with nothing set.
    pub fn new() -> (r: MaterialConfig)
        ensures
            r.shader_name is None,
    {
        MaterialConfig { shader_name: None }
    }

    /// Builds the material; fails with `MissingRequiredField` when no shader
    /// name was supplied.
    pub fn finalize(self) -> (r: Result<Material, GeomError>)
        ensures
            self.shader_name matches Some(n) ==> (r matches Ok(m) && m.shader_name == n),
            self.shader_name is None ==> r == Err::<Material, GeomError>(
                GeomError::MissingRequiredField,
            ),
    {
        match self.shader_name {
            Some(n) => Ok(Material { shader_name: n }),
            None => Err(GeomError::MissingRequiredField),
        }
    }
}

/// Configuration for a render item.  A non-empty vertex list and a material
/// are required; the name defaults to the empty string and the transform
/// list to no instances.
#[derive(Clone, Debug, PartialEq, Eq)]
pub struct RenderItemConfig {
    pub name: Option<String>,
    pub vertices: Option<Vec<Vertex>>,
    pub material: Option<Material>,
    pub instance_transforms: Option<Vec<Transform>>,
}

/// A required field of a render item is present and non-empty.
pub open spec fn render_item_complete(c: RenderItemConfig) -> bool {
    &&& c.vertices matches Some(vs) && vs@.len() > 0
    &&& c.material is Some
}

impl RenderItemConfig {
    /// A configuration with nothing set.
    pub fn new() -> (r: RenderItemConfig)
        ensures
            r.name is None,
            r.vertices is None,
            r.material is None,
            r.instance_transforms is None,
    {
        RenderItemConfig { name: None, vertices: None, material: None, instance_transforms: None }
    }

    /// Builds the render item; fails with `MissingRequiredField` when the
    /// vertex list was never supplied (or supplied empty, which renders
    /// nothing), or when no material was supplied.
    pub fn finalize(self) -> (r: Result<RenderItem, GeomError>)
        ensures
            render_item_complete(self) ==> (r matches Ok(item) && {
                &&& self.name matches Some(n) ==> item.name == n
                &&& self.name is None ==> item.name@ == Seq::<char>::empty()
                &&& self.vertices matches Some(vs) && item.vertices@ == vs@
                &&& self.material matches Some(m) && item.material == m
                &&& self.instance_transforms matches Some(ts) ==> item.instance_transforms@ == ts@
                &&& self.instance_transforms is None ==> item.instance_transforms@
                    == Seq::<Transform>::empty()
                &&& item.vertices@.len() > 0
            }),
            !render_item_complete(self) ==> r == Err::<RenderItem, GeomError>(
                GeomError::MissingRequiredField,
            ),
    {
        let vertices = match self.vertices {
            Some(vs) => vs,
            None => {
                return Err(GeomError::MissingRequiredField);
            },
        };
        if vertices.len() == 0 {
            return Err(GeomError::MissingRequiredField);
        }
        let material = match self.material {
            Some(m) => m,
            None => {
                return Err(GeomError::MissingRequiredField);
            },
        };
        let name = match self.name {
            Some(n) => n,
            None => String::new(),
        };
        let instance_transforms = match self.instance_transforms {
            Some(ts) => ts,
            None => Vec::new(),
        };
        Ok(RenderItem { name, vertices, material, instance_transforms })
    }
}

} // verus!
