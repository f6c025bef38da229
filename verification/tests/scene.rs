use geom_core::errors::GeomError;
use geom_core::scalar::Scalar;
use geom_core::scene::{
    Material, MaterialConfig, Quaternion, RenderItemConfig, TexCoord, Transform, TransformConfig,
    Vector3, Vertex,
};

fn sc(mant: i64, frac: u8) -> Scalar {
    Scalar { mant, frac }
}

fn sample_vertex() -> Vertex {
    Vertex {
        position: Vector3 { x: sc(1, 0), y: sc(2, 0), z: sc(3, 0) },
        normal: Vector3 { x: sc(0, 0), y: sc(0, 0), z: sc(1, 0) },
        texture: TexCoord { u: sc(0, 0), v: sc(0, 0) },
    }
}

#[test]
fn transform_defaults() {
    let t = TransformConfig::new().finalize();
    assert_eq!(t.position, Vector3 { x: sc(0, 0), y: sc(0, 0), z: sc(0, 0) });
    assert_eq!(t.rotation, Quaternion { x: sc(0, 0), y: sc(0, 0), z: sc(0, 0), w: sc(1, 0) });
    assert_eq!(t.scale, Vector3 { x: sc(1, 0), y: sc(1, 0), z: sc(1, 0) });
}

#[test]
fn transform_keeps_supplied_fields() {
    let pos = Vector3 { x: sc(5, 0), y: sc(-5, 0), z: sc(25, 1) };
    let scale = Vector3 { x: sc(300, 0), y: sc(300, 0), z: sc(300, 0) };
    let t = TransformConfig { position: Some(pos), rotation: None, scale: Some(scale) }.finalize();
    assert_eq!(t.position, pos);
    assert_eq!(t.scale, scale);
    assert_eq!(t.rotation, Quaternion { x: sc(0, 0), y: sc(0, 0), z: sc(0, 0), w: sc(1, 0) });
}

#[test]
fn material_requires_a_shader_name() {
    assert_eq!(MaterialConfig::new().finalize(), Err(GeomError::MissingRequiredField));
    let m = MaterialConfig { shader_name: Some("dist".to_string()) }.finalize().unwrap();
    assert_eq!(m.shader_name, "dist");
}

#[test]
fn render_item_requires_vertices() {
    let material = Material { shader_name: "dist".to_string() };
    let mut cfg = RenderItemConfig::new();
    cfg.material = Some(material.clone());
    assert_eq!(cfg.clone().finalize(), Err(GeomError::MissingRequiredField));
    cfg.vertices = Some(Vec::new());
    assert_eq!(cfg.finalize(), Err(GeomError::MissingRequiredField));
}

#[test]
fn render_item_requires_a_material() {
    let mut cfg = RenderItemConfig::new();
    cfg.vertices = Some(vec![sample_vertex()]);
    assert_eq!(cfg.finalize(), Err(GeomError::MissingRequiredField));
}

#[test]
fn render_item_defaults() {
    let mut cfg = RenderItemConfig::new();
    cfg.vertices = Some(vec![sample_vertex()]);
    cfg.material = Some(Material { shader_name: "height".to_string() });
    let item = cfg.finalize().unwrap();
    assert_eq!(item.name, "");
    assert_eq!(item.vertices.len(), 1);
    assert_eq!(item.instance_transforms.len(), 0);
}

#[test]
fn render_item_keeps_everything_supplied() {
    let verts = vec![sample_vertex(), sample_vertex(), sample_vertex()];
    let t: Transform = TransformConfig::new().finalize();
    let item = RenderItemConfig {
        name: Some("skydome".to_string()),
        vertices: Some(verts.clone()),
        material: Some(Material { shader_name: "sky".to_string() }),
        instance_transforms: Some(vec![t, t]),
    }
    .finalize()
    .unwrap();
    assert_eq!(item.name, "skydome");
    assert_eq!(item.vertices, verts);
    assert_eq!(item.material.shader_name, "sky");
    assert_eq!(item.instance_transforms.len(), 2);
}
