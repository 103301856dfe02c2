use vstd::prelude::*;

verus! {

/// The raw mesh that `three_d::CpuMesh::sphere` tessellates at a given
/// subdivision count: first the vertex positions, one coordinate triple per
/// vertex with each coordinate the bit pattern of its single-precision float,
/// then the flat triangle-index stream. The tessellation is a fixed
/// computation over the count alone.
pub uninterp spec fn sphere_mesh_of(angle_subdivisions: u32) -> (Seq<(u32, u32, u32)>, Seq<u32>);

/// Relies on `three_d::CpuMesh::sphere`, read out with `Positions::into_f32`
/// and `Indices::into_u32`: the sphere's positions are already
/// single-precision and its indices 16-bit, widened losslessly. Its source
/// shows, for any count in the admitted range: at least the two pole vertices;
/// one fan of at least three indices around each pole; and every index, cast
/// from a value at most the last vertex's position, below the vertex count.
/// Counts outside the range make the sphere's own index arithmetic overflow.
#[verifier::external_body]
pub(crate) fn sphere_mesh(angle_subdivisions: u32) -> (r: (Vec<(u32, u32, u32)>, Vec<u32>))
    requires
        2 <= angle_subdivisions <= 46340,
    ensures
        r.0@ == sphere_mesh_of(angle_subdivisions).0,
        r.1@ == sphere_mesh_of(angle_subdivisions).1,
        r.0@.len() >= 2,
        r.1@.len() >= 3,
        forall|i: int| 0 <= i < r.1@.len() ==> (r.1@[i] as int) < r.0@.len(),
{
    let mesh = three_d::CpuMesh::sphere(angle_subdivisions);
    let positions: Vec<(u32, u32, u32)> = mesh
        .positions
        .into_f32()
        .iter()
        .map(|p| (p.x.to_bits(), p.y.to_bits(), p.z.to_bits()))
        .collect();
    let indices: Vec<u32> = mesh.indices.into_u32().expect("Indices are not u32");
    (positions, indices)
}

} // verus!
