use vstd::prelude::*;
use crate::model::{Mat4, Model, Triangle, Vec3};
use crate::shape::{sphere_mesh, sphere_mesh_of};

verus! {

/// The subdivision count at which the sphere generator tessellates.
pub const SPHERE_SUBDIVISIONS: u32 = 32;

/// A node: a pure, stateless operation from a typed input to a typed output.
/// A concrete node binds one input/output pair; callers chain nodes by handing
/// one node's output to the next.
pub trait Node<I, O> {
    fn operation(&self, input: I) -> O;
}

/// The vertex a raw coordinate triple becomes.
pub open spec fn vertex_of(p: (u32, u32, u32)) -> Vec3 {
    Vec3 { x: p.0, y: p.1, z: p.2 }
}

/// The triangles read off a flat index stream, three indices at a time in
/// stream order; trailing indices short of a full triple are dropped.
pub open spec fn triangles_of(indices: Seq<u32>) -> Seq<Triangle> {
    Seq::new(
        indices.len() / 3,
        |k: int| (Triangle { a: indices[3 * k], b: indices[3 * k + 1], c: indices[3 * k + 2] }),
    )
}

/// What a model freshly built from a shape source's raw data holds: the
/// positions in emission order, the index stream grouped into triangles, and
/// the identity transform.
pub open spec fn built_from(m: Model, positions: Seq<(u32, u32, u32)>, indices: Seq<u32>) -> bool {
    &&& m.vertices@ == positions.map_values(|p: (u32, u32, u32)| vertex_of(p))
    &&& m.triangles@ == triangles_of(indices)
    &&& m.transform == Mat4::identity_spec()
}

/// Builds a model from a shape source's raw positions and flat index stream.
/// Exactly one triangle is emitted per full index triple, so the triangle
/// count is the floor of a third of the stream's length.
pub fn build_model(positions: &Vec<(u32, u32, u32)>, indices: &Vec<u32>) -> (m: Model)
    ensures
        built_from(m, positions@, indices@),
        m.triangles@.len() == indices@.len() / 3,
{
    let mut model = Model::new();

    let mut i: usize = 0;
    while i < positions.len()
        invariant
            i <= positions@.len(),
            model.vertices@ == positions@.subrange(0, i as int).map_values(
                |p: (u32, u32, u32)| vertex_of(p),
            ),
            model.triangles@ == Seq::<Triangle>::empty(),
            model.transform == Mat4::identity_spec(),
        decreases positions@.len() - i,
    {
        let p = positions[i];
        model.add_vertex(p.0, p.1, p.2);
        proof {
            assert(positions@.subrange(0, i + 1 as int).map_values(
                |q: (u32, u32, u32)| vertex_of(q),
            ) =~= positions@.subrange(0, i as int).map_values(
                |q: (u32, u32, u32)| vertex_of(q),
            ).push(vertex_of(positions@[i as int])));
        }
        i += 1;
    }
    proof {
        assert(positions@.subrange(0, positions@.len() as int) =~= positions@);
    }

    let total: usize = indices.len();
    let n_triangles: usize = total / 3;
    assert(3 * (total as int / 3) <= total as int) by (nonlinear_arith);
    let mut k: usize = 0;
    while k < n_triangles
        invariant
            k <= n_triangles,
            total == indices@.len(),
            n_triangles == indices@.len() / 3,
            3 * n_triangles <= total,
            model.vertices@ == positions@.map_values(|p: (u32, u32, u32)| vertex_of(p)),
            model.transform == Mat4::identity_spec(),
            model.triangles@.len() == k,
            forall|j: int| 0 <= j < k ==> model.triangles@[j] == triangles_of(indices@)[j],
        decreases n_triangles - k,
    {
        let a = indices[3 * k];
        let b = indices[3 * k + 1];
        let c = indices[3 * k + 2];
        model.add_index(a, b, c);
        k += 1;
    }
    proof {
        assert(model.triangles@ =~= triangles_of(indices@));
    }
    model
}

/// Index validity: a model built from a stream whose every index lies below
/// the position count has every component of every triangle below its vertex
/// count.
pub proof fn lemma_built_model_indices_valid(
    m: Model,
    positions: Seq<(u32, u32, u32)>,
    indices: Seq<u32>,
)
    requires
        built_from(m, positions, indices),
        forall|i: int| 0 <= i < indices.len() ==> (indices[i] as int) < positions.len(),
    ensures
        m.indices_valid(),
{
    assert forall|k: int| 0 <= k < m.triangles@.len() implies {
        &&& (m.triangles@[k].a as int) < m.vertices@.len()
        &&& (m.triangles@[k].b as int) < m.vertices@.len()
        &&& (m.triangles@[k].c as int) < m.vertices@.len()
    } by {
        assert(3 * (indices.len() / 3) <= indices.len()) by (nonlinear_arith);
        assert(m.triangles@[k] == triangles_of(indices)[k]);
        assert(0 <= 3 * k && 3 * k + 2 < indices.len());
        assert(m.vertices@.len() == positions.len());
    }
}

/// The generator node: produces a sphere mesh at `SPHERE_SUBDIVISIONS`
/// subdivisions from no geometric input.
pub struct SphereNode {}

/// What the sphere generator guarantees of its output: built from the sphere
/// tessellation's raw data, non-empty on both vertices and triangles, every
/// triangle index valid, and the transform the identity.
pub open spec fn generated_sphere(m: Model) -> bool {
    &&& built_from(m, sphere_mesh_of(SPHERE_SUBDIVISIONS).0, sphere_mesh_of(SPHERE_SUBDIVISIONS).1)
    &&& m.vertices@.len() > 0
    &&& m.triangles@.len() > 0
    &&& m.indices_valid()
}

impl Node<((),), Model> for SphereNode {
    fn operation(&self, _input: ((),)) -> (m: Model)
        ensures
            generated_sphere(m),
    {
        let (positions, indices) = sphere_mesh(SPHERE_SUBDIVISIONS);
        let model = build_model(&positions, &indices);
        proof {
            lemma_built_model_indices_valid(model, positions@, indices@);
            assert(indices@.len() / 3 > 0);
        }
        model
    }
}

/// The transformer node: stores the translation by the given vector as the
/// model's transform, replacing whatever transform the model had. The mesh
/// itself passes through untouched; applying the transform to the coordinates
/// is a downstream concern.
pub struct TransformNode {}

/// What the transformer guarantees: vertices and triangles of the output are
/// those of the input, and the transform is the translation by `v`.
pub open spec fn translated(input: Model, v: Vec3, out: Model) -> bool {
    &&& out.vertices@ == input.vertices@
    &&& out.triangles@ == input.triangles@
    &&& out.transform == Mat4::translation_spec(v)
}

impl Node<(Model, Vec3), Model> for TransformNode {
    fn operation(&self, input: (Model, Vec3)) -> (m: Model)
        ensures
            translated(input.0, input.1, m),
    {
        let (mut model, v) = input;
        let transform = Mat4::translation(v);
        model.set_transform(transform);
        model
    }
}

/// Determinism of the generator: any two models that satisfy its guarantee
/// agree, bit for bit, on vertices, triangles and transform, since the
/// guarantee pins all three against one fixed tessellation.
pub proof fn lemma_generator_deterministic(m1: Model, m2: Model)
    requires
        generated_sphere(m1),
        generated_sphere(m2),
    ensures
        m1.vertices@ == m2.vertices@,
        m1.triangles@ == m2.triangles@,
        m1.transform == m2.transform,
{
}

/// Determinism of the transformer: on equal inputs, any two results that
/// satisfy its guarantee agree, bit for bit, on vertices, triangles and
/// transform.
pub proof fn lemma_transformer_deterministic(input: Model, v: Vec3, m1: Model, m2: Model)
    requires
        translated(input, v, m1),
        translated(input, v, m2),
    ensures
        m1.vertices@ == m2.vertices@,
        m1.triangles@ == m2.triangles@,
        m1.transform == m2.transform,
{
}

} // verus!
