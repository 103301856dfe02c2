use vstd::prelude::*;

verus! {

/// Bit pattern of the single-precision float zero.
pub const ZERO_BITS: u32 = 0x0000_0000;

/// Bit pattern of the single-precision float one.
pub const ONE_BITS: u32 = 0x3F80_0000;

/// A point or direction in space. Each component holds the bit pattern of a
/// single-precision float, so equality of vectors is bit equality of the
/// coordinates.
#[derive(Clone, Copy, PartialEq, Eq, Structural, Debug)]
pub struct Vec3 {
    pub x: u32,
    pub y: u32,
    pub z: u32,
}

impl Vec3 {
    pub fn new(x: u32, y: u32, z: u32) -> (v: Vec3)
        ensures
            v.x == x,
            v.y == y,
            v.z == z,
    {
        Vec3 { x, y, z }
    }
}

/// One column of a four-by-four matrix; components are bit patterns of
/// single-precision floats.
#[derive(Clone, Copy, PartialEq, Eq, Structural, Debug)]
pub struct Vec4 {
    pub x: u32,
    pub y: u32,
    pub z: u32,
    pub w: u32,
}

/// A four-by-four affine transform, stored column-major as the four columns
/// `x`, `y`, `z`, `w`, each entry the bit pattern of a single-precision float.
#[derive(Clone, Copy, PartialEq, Eq, Structural, Debug)]
pub struct Mat4 {
    pub x: Vec4,
    pub y: Vec4,
    pub z: Vec4,
    pub w: Vec4,
}

impl Mat4 {
    /// The identity transform: ones on the diagonal, zeroes elsewhere.
    pub open spec fn identity_spec() -> Mat4 {
        Mat4 {
            x: Vec4 { x: ONE_BITS, y: ZERO_BITS, z: ZERO_BITS, w: ZERO_BITS },
            y: Vec4 { x: ZERO_BITS, y: ONE_BITS, z: ZERO_BITS, w: ZERO_BITS },
            z: Vec4 { x: ZERO_BITS, y: ZERO_BITS, z: ONE_BITS, w: ZERO_BITS },
            w: Vec4 { x: ZERO_BITS, y: ZERO_BITS, z: ZERO_BITS, w: ONE_BITS },
        }
    }

    pub fn identity() -> (m: Mat4)
        ensures
            m == Mat4::identity_spec(),
    {
        Mat4 {
            x: Vec4 { x: ONE_BITS, y: ZERO_BITS, z: ZERO_BITS, w: ZERO_BITS },
            y: Vec4 { x: ZERO_BITS, y: ONE_BITS, z: ZERO_BITS, w: ZERO_BITS },
            z: Vec4 { x: ZERO_BITS, y: ZERO_BITS, z: ONE_BITS, w: ZERO_BITS },
            w: Vec4 { x: ZERO_BITS, y: ZERO_BITS, z: ZERO_BITS, w: ONE_BITS },
        }
    }

    /// The homogeneous translation by `v`: the identity with `v` in the last
    /// column. Entry for entry this is the matrix `cgmath`'s
    /// `Matrix4::from_translation` builds from the same vector, since that
    /// matrix holds only the constants zero and one and the components of `v`
    /// verbatim.
    pub open spec fn translation_spec(v: Vec3) -> Mat4 {
        Mat4 {
            x: Vec4 { x: ONE_BITS, y: ZERO_BITS, z: ZERO_BITS, w: ZERO_BITS },
            y: Vec4 { x: ZERO_BITS, y: ONE_BITS, z: ZERO_BITS, w: ZERO_BITS },
            z: Vec4 { x: ZERO_BITS, y: ZERO_BITS, z: ONE_BITS, w: ZERO_BITS },
            w: Vec4 { x: v.x, y: v.y, z: v.z, w: ONE_BITS },
        }
    }

    pub fn translation(v: Vec3) -> (m: Mat4)
        ensures
            m == Mat4::translation_spec(v),
    {
        Mat4 {
            x: Vec4 { x: ONE_BITS, y: ZERO_BITS, z: ZERO_BITS, w: ZERO_BITS },
            y: Vec4 { x: ZERO_BITS, y: ONE_BITS, z: ZERO_BITS, w: ZERO_BITS },
            z: Vec4 { x: ZERO_BITS, y: ZERO_BITS, z: ONE_BITS, w: ZERO_BITS },
            w: Vec4 { x: v.x, y: v.y, z: v.z, w: ONE_BITS },
        }
    }
}

/// Translation by the zero vector is, bit for bit, the identity transform.
pub proof fn lemma_zero_translation_is_identity()
    ensures
        Mat4::translation_spec((Vec3 { x: ZERO_BITS, y: ZERO_BITS, z: ZERO_BITS }))
            == Mat4::identity_spec(),
{
}

/// One triangle of a mesh: three indices into the vertex list, in winding
/// order.
#[derive(Clone, Copy, PartialEq, Eq, Structural, Debug)]
pub struct Triangle {
    pub a: u32,
    pub b: u32,
    pub c: u32,
}

/// One mesh instance together with its placement in space: vertex positions,
/// triangle index-triples, and a single affine transform applied to the mesh
/// as a whole.
#[derive(Clone)]
pub struct Model {
    pub vertices: Vec<Vec3>,
    pub triangles: Vec<Triangle>,
    pub transform: Mat4,
}

impl Model {
    /// Every index of every triangle points at an existing vertex. Every
    /// generated model satisfies this; a caller building a model by hand may
    /// break it, and no method here checks it.
    pub open spec fn indices_valid(self) -> bool {
        forall|k: int|
            0 <= k < self.triangles@.len() ==> {
                &&& (self.triangles@[k].a as int) < self.vertices@.len()
                &&& (self.triangles@[k].b as int) < self.vertices@.len()
                &&& (self.triangles@[k].c as int) < self.vertices@.len()
            }
    }

    /// An empty mesh placed at the identity transform.
    pub fn new() -> (m: Model)
        ensures
            m.vertices@ == Seq::<Vec3>::empty(),
            m.triangles@ == Seq::<Triangle>::empty(),
            m.transform == Mat4::identity_spec(),
    {
        Model { vertices: Vec::new(), triangles: Vec::new(), transform: Mat4::identity() }
    }

    /// Appends one vertex; triangles and transform stay as they were.
    pub fn add_vertex(&mut self, x: u32, y: u32, z: u32)
        ensures
            final(self).vertices@ == old(self).vertices@.push((Vec3 { x, y, z })),
            final(self).triangles@ == old(self).triangles@,
            final(self).transform == old(self).transform,
    {
        self.vertices.push(Vec3 { x, y, z });
    }

    /// Appends one triangle; vertices and transform stay as they were. The
    /// indices are stored as given, valid or not.
    pub fn add_index(&mut self, a: u32, b: u32, c: u32)
        ensures
            final(self).triangles@ == old(self).triangles@.push((Triangle { a, b, c })),
            final(self).vertices@ == old(self).vertices@,
            final(self).transform == old(self).transform,
    {
        self.triangles.push(Triangle { a, b, c });
    }

    /// Replaces the transform; vertices and triangles stay as they were.
    pub fn set_transform(&mut self, transform: Mat4)
        ensures
            final(self).transform == transform,
            final(self).vertices@ == old(self).vertices@,
            final(self).triangles@ == old(self).triangles@,
    {
        self.transform = transform;
    }
}

} // verus!
