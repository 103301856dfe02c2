use mesh_nodes::model::{Mat4, Triangle, Vec3};
use mesh_nodes::nodes::{Node, SphereNode};
use three_d::{CpuMesh, Matrix4, Vector3};

#[test]
fn translation_matches_outside_matrix() {
    let v = Vector3::new(1.5f32, -2.0f32, 0.25f32);
    let outside = Matrix4::from_translation(v);
    let ours = Mat4::translation(Vec3::new(v.x.to_bits(), v.y.to_bits(), v.z.to_bits()));
    assert_eq!(ours.x.x, outside.x.x.to_bits());
    assert_eq!(ours.x.y, outside.x.y.to_bits());
    assert_eq!(ours.x.z, outside.x.z.to_bits());
    assert_eq!(ours.x.w, outside.x.w.to_bits());
    assert_eq!(ours.y.x, outside.y.x.to_bits());
    assert_eq!(ours.y.y, outside.y.y.to_bits());
    assert_eq!(ours.y.z, outside.y.z.to_bits());
    assert_eq!(ours.y.w, outside.y.w.to_bits());
    assert_eq!(ours.z.x, outside.z.x.to_bits());
    assert_eq!(ours.z.y, outside.z.y.to_bits());
    assert_eq!(ours.z.z, outside.z.z.to_bits());
    assert_eq!(ours.z.w, outside.z.w.to_bits());
    assert_eq!(ours.w.x, outside.w.x.to_bits());
    assert_eq!(ours.w.y, outside.w.y.to_bits());
    assert_eq!(ours.w.z, outside.w.z.to_bits());
    assert_eq!(ours.w.w, outside.w.w.to_bits());
}

#[test]
fn generated_sphere_matches_outside_mesh() {
    let node = SphereNode {};
    let model = node.operation(((),));

    let sphere = CpuMesh::sphere(32);
    let positions = sphere.positions.into_f32();
    let indices = sphere.indices.into_u32().expect("Indices are not u32");

    assert_eq!(model.vertices.len(), positions.len());
    for (ours, theirs) in model.vertices.iter().zip(positions.iter()) {
        assert_eq!(ours.x, theirs.x.to_bits());
        assert_eq!(ours.y, theirs.y.to_bits());
        assert_eq!(ours.z, theirs.z.to_bits());
    }

    assert_eq!(model.triangles.len(), indices.len() / 3);
    for (k, t) in model.triangles.iter().enumerate() {
        let expected = Triangle { a: indices[3 * k], b: indices[3 * k + 1], c: indices[3 * k + 2] };
        assert_eq!(*t, expected);
    }
}
