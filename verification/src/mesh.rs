//! Loading of STL files, ASCII or binary, and expansion of the indexed mesh
//! into the non-indexed triangle list that is uploaded to the GPU: one
//! vertex per triangle corner, so that every corner carries its face's flat
//! normal.
//!
//! Coordinates are a type parameter: the library moves them and never looks
//! inside them. Files are read with each floating-point coordinate kept as
//! its bit pattern.
use std::io::Cursor;
use std::io::Error as IoError;
use vstd::prelude::*;

verus! {

/// A triangle of an indexed mesh: its normal and the indices of its three
/// corners in the mesh's vertex list.
#[derive(Copy, Clone, Debug)]
pub struct Face<P> {
    pub normal: P,
    pub vertices: [usize; 3],
}

/// One corner of a rendered triangle.
#[derive(Copy, Clone, Debug)]
pub struct Vertex<P> {
    pub position: P,
    pub normal: P,
}

/// A non-indexed triangle list: corner `3 * i + k` of `vertices` is corner
/// `k` of face `i`, and `indices` draws the corners in order.
pub struct Mesh<P> {
    pub vertices: Vec<Vertex<P>>,
    pub indices: Vec<u32>,
}

/// Every corner of every face names a vertex of the list.
pub open spec fn faces_in_range<P>(positions: Seq<P>, faces: Seq<Face<P>>) -> bool {
    forall|i: int, k: int|
        0 <= i < faces.len() && 0 <= k < 3 ==> #[trigger] faces[i].vertices[k] < positions.len()
}

/// The vertex that corner `k` of face `i` expands to.
pub open spec fn corner<P>(positions: Seq<P>, faces: Seq<Face<P>>, i: int, k: int) -> Vertex<P> {
    Vertex { position: positions[faces[i].vertices[k] as int], normal: faces[i].normal }
}

/// The expansion of `faces` over `positions`, and the identity index list
/// that draws it.
pub open spec fn expanded<P>(
    positions: Seq<P>,
    faces: Seq<Face<P>>,
    vertices: Seq<Vertex<P>>,
    indices: Seq<u32>,
) -> bool {
    &&& vertices.len() == 3 * faces.len()
    &&& indices.len() == 3 * faces.len()
    &&& forall|i: int, k: int|
        0 <= i < faces.len() && 0 <= k < 3 ==> #[trigger] vertices[3 * i + k] == corner(
            positions,
            faces,
            i,
            k,
        )
    &&& forall|j: int| 0 <= j < indices.len() ==> #[trigger] indices[j] == j
}

/// Expands an indexed mesh into one vertex per triangle corner, each with
/// its face's normal, and the index list `0, 1, 2, …` that draws them.
pub fn expand_faces<P: Copy>(positions: &[P], faces: &[Face<P>]) -> (m: Mesh<P>)
    requires
        faces_in_range(positions@, faces@),
        3 * faces@.len() <= u32::MAX + 1,
    ensures
        expanded(positions@, faces@, m.vertices@, m.indices@),
{
    let n = faces.len();
    let mut vertices: Vec<Vertex<P>> = Vec::with_capacity(n * 3);
    let mut indices: Vec<u32> = Vec::with_capacity(n * 3);
    let mut i: usize = 0;
    while i < n
        invariant
            n == faces@.len(),
            0 <= i <= n,
            3 * n <= u32::MAX + 1,
            faces_in_range(positions@, faces@),
            vertices@.len() == 3 * i,
            indices@.len() == 3 * i,
            forall|a: int, k: int|
                0 <= a < i && 0 <= k < 3 ==> #[trigger] vertices@[3 * a + k] == corner(
                    positions@,
                    faces@,
                    a,
                    k,
                ),
            forall|j: int| 0 <= j < indices@.len() ==> #[trigger] indices@[j] == j,
        decreases n - i,
    {
        let face = faces[i];
        let normal = face.normal;
        let mut k: usize = 0;
        while k < 3
            invariant
                n == faces@.len(),
                0 <= i < n,
                0 <= k <= 3,
                face == faces@[i as int],
                normal == face.normal,
                faces_in_range(positions@, faces@),
                vertices@.len() == 3 * i + k,
                forall|a: int, c: int|
                    0 <= a < i && 0 <= c < 3 ==> #[trigger] vertices@[3 * a + c] == corner(
                        positions@,
                        faces@,
                        a,
                        c,
                    ),
                forall|c: int|
                    0 <= c < k ==> #[trigger] vertices@[3 * i + c] == corner(
                        positions@,
                        faces@,
                        i as int,
                        c,
                    ),
            decreases 3 - k,
        {
            let vid = face.vertices[k];
            assert(faces@[i as int].vertices[k as int] < positions@.len());
            let position = positions[vid];
            vertices.push(Vertex { position, normal });
            k = k + 1;
        }
        let base = (i * 3) as u32;
        indices.push(base);
        indices.push(base + 1);
        indices.push(base + 2);
        i = i + 1;
    }
    Mesh { vertices, indices }
}

/// The expanded list draws each face once: there are as many triangles as
/// faces, and every index names a corner of the list.
pub proof fn lemma_expanded_indices_in_range<P>(
    positions: Seq<P>,
    faces: Seq<Face<P>>,
    vertices: Seq<Vertex<P>>,
    indices: Seq<u32>,
)
    requires
        expanded(positions, faces, vertices, indices),
    ensures
        indices.len() / 3 == faces.len(),
        forall|j: int| 0 <= j < indices.len() ==> #[trigger] indices[j] < vertices.len(),
{
}

/// Index `j` of the expanded list draws corner `j % 3` of face `j / 3` (its
/// position, with the face's normal), so
/// the list draws every corner of every face, each exactly once: index `j`
/// is `j` itself, and no two indices coincide.
pub proof fn lemma_expanded_draws_each_corner_once<P>(
    positions: Seq<P>,
    faces: Seq<Face<P>>,
    vertices: Seq<Vertex<P>>,
    indices: Seq<u32>,
)
    requires
        expanded(positions, faces, vertices, indices),
    ensures
        forall|j: int| 0 <= j < 3 * faces.len() ==> #[trigger] indices[j] as int == j,
        forall|j: int|
            0 <= j < indices.len() ==> {
                &&& vertices[#[trigger] indices[j] as int].position == positions[faces[j
                    / 3].vertices[j % 3] as int]
                &&& vertices[indices[j] as int].normal == faces[j / 3].normal
            },
        forall|a: int, b: int|
            0 <= a < indices.len() && 0 <= b < indices.len() && a != b ==> #[trigger] indices[a]
                != #[trigger] indices[b],
{
    assert forall|j: int| 0 <= j < indices.len() implies {
        &&& vertices[#[trigger] indices[j] as int].position == positions[faces[j / 3].vertices[j
            % 3] as int]
        &&& vertices[indices[j] as int].normal == faces[j / 3].normal
    } by {
        let i = j / 3;
        let k = j % 3;
        assert(j == 3 * i + k);
        assert(0 <= i < faces.len());
        assert(vertices[3 * i + k] == corner(positions, faces, i, k));
    }
}

#[verifier::external_type_specification]
#[verifier::external_body]
pub struct ExIoError(IoError);

/// The indexed mesh that `stl_io::read_stl` makes of an STL file's bytes,
/// ASCII or binary, with every floating-point coordinate given by its bit pattern:
/// the distinct vertices in order of first use, and each facet's normal with
/// the indices of its three corners; `None` where the file is refused.
pub uninterp spec fn stl_indexed_mesh(bytes: Seq<u8>) -> Option<(Seq<[u32; 3]>, Seq<Face<[u32; 3]>>)>;

/// Why an STL file could not be loaded.
#[derive(Debug)]
pub enum StlError {
    /// The bytes are not an STL file that `stl_io` accepts.
    Parse(String),
    /// More faces than a `u32` index list can number.
    TooManyFaces,
}

/// Calls `stl_io::read_stl` on the bytes (through an in-memory cursor) and
/// converts every coordinate of the vertices and normals to its bit
/// pattern (`to_bits`). Trusted: the contract claims that the mesh, or the
/// refusal, is a function of the bytes alone, named `stl_indexed_mesh`, and
/// that every face's corner indices are below the vertex count (`stl_io`
/// records a vertex's index only after pushing it).
#[verifier::external_body]
fn read_stl_bits(bytes: &[u8]) -> (r: Result<(Vec<[u32; 3]>, Vec<Face<[u32; 3]>>), IoError>)
    ensures
        match r {
            Ok((p, f)) => stl_indexed_mesh(bytes@) == Some((p@, f@)),
            Err(_) => stl_indexed_mesh(bytes@) is None,
        },
        r matches Ok((p, f)) ==> faces_in_range(p@, f@),
{
    let mesh = stl_io::read_stl(&mut Cursor::new(bytes))?;
    let positions = mesh.vertices.iter().map(|v| v.0.map(|c| c.to_bits())).collect();
    let faces = mesh
        .faces
        .iter()
        .map(|f| Face { normal: f.normal.0.map(|c| c.to_bits()), vertices: f.vertices })
        .collect();
    Ok((positions, faces))
}

/// Reads an STL file (ASCII or binary) and expands it into one vertex per
/// triangle corner with its face's normal, coordinates as floating-point bit
/// patterns.
pub fn load_stl_bytes(bytes: &[u8]) -> (r: Result<Mesh<[u32; 3]>, StlError>)
    ensures
        match stl_indexed_mesh(bytes@) {
            None => r matches Err(StlError::Parse(_)),
            Some((p, f)) => if 3 * f.len() <= u32::MAX + 1 {
                r matches Ok(m) && expanded(p, f, m.vertices@, m.indices@)
            } else {
                r matches Err(StlError::TooManyFaces)
            },
        },
{
    match read_stl_bits(bytes) {
        Err(e) => Err(StlError::Parse(e.to_string())),
        Ok((positions, faces)) => {
            if faces.len() as u64 > 0x5555_5555 {
                Err(StlError::TooManyFaces)
            } else {
                Ok(expand_faces(positions.as_slice(), faces.as_slice()))
            }
        },
    }
}

} // verus!
