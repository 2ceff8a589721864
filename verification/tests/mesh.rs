use stl_gallery::mesh::{expand_faces, load_stl_bytes, Face, StlError, Vertex};

#[test]
fn expands_one_vertex_per_corner() {
    let positions = [[0u8, 0], [1, 0], [0, 1], [1, 1]];
    let faces = [
        Face { normal: [9u8, 9], vertices: [0, 1, 2] },
        Face { normal: [7u8, 7], vertices: [1, 3, 2] },
    ];
    let mesh = expand_faces(&positions, &faces);
    assert_eq!(mesh.indices, vec![0, 1, 2, 3, 4, 5]);
    let corners: Vec<([u8; 2], [u8; 2])> =
        mesh.vertices.iter().map(|v: &Vertex<[u8; 2]>| (v.position, v.normal)).collect();
    assert_eq!(
        corners,
        vec![
            ([0, 0], [9, 9]),
            ([1, 0], [9, 9]),
            ([0, 1], [9, 9]),
            ([1, 0], [7, 7]),
            ([1, 1], [7, 7]),
            ([0, 1], [7, 7]),
        ]
    );
}

#[test]
fn empty_mesh_expands_to_nothing() {
    let positions: [[f32; 3]; 0] = [];
    let faces: [Face<[f32; 3]>; 0] = [];
    let mesh = expand_faces(&positions, &faces);
    assert!(mesh.vertices.is_empty());
    assert!(mesh.indices.is_empty());
}

#[test]
fn expands_parsed_ascii_stl() {
    let mut reader = std::io::Cursor::new(
        b"solid t
facet normal 0 0 1
 outer loop
  vertex 0 0 0
  vertex 1 0 0
  vertex 0 1 0
 endloop
endfacet
facet normal 0 0 1
 outer loop
  vertex 1 0 0
  vertex 1 1 0
  vertex 0 1 0
 endloop
endfacet
endsolid t"
            .to_vec(),
    );
    let stl = stl_io::read_stl(&mut reader).unwrap();
    let positions: Vec<[f32; 3]> = stl.vertices.iter().map(|v| [v[0], v[1], v[2]]).collect();
    let faces: Vec<Face<[f32; 3]>> = stl
        .faces
        .iter()
        .map(|f| Face { normal: [f.normal[0], f.normal[1], f.normal[2]], vertices: f.vertices })
        .collect();
    let mesh = expand_faces(&positions, &faces);
    assert_eq!(mesh.indices.len() / 3, 2);
    assert_eq!(mesh.vertices.len(), 6);
    assert_eq!(mesh.vertices[4].position, [1.0, 1.0, 0.0]);
    assert_eq!(mesh.vertices[4].normal, [0.0, 0.0, 1.0]);
}

const ASCII_TWO_FACETS: &[u8] = b"solid t
facet normal 0 0 1
 outer loop
  vertex 0 0 0
  vertex 1 0 0
  vertex 0 1 0
 endloop
endfacet
facet normal 0 0 1
 outer loop
  vertex 1 0 0
  vertex 1 1 0
  vertex 0 1 0
 endloop
endfacet
endsolid t";

fn bits(v: [f32; 3]) -> [u32; 3] {
    v.map(f32::to_bits)
}

#[test]
fn loads_ascii_stl_bytes() {
    let mesh = load_stl_bytes(ASCII_TWO_FACETS).unwrap();
    assert_eq!(mesh.indices, vec![0, 1, 2, 3, 4, 5]);
    let positions: Vec<[u32; 3]> = mesh.vertices.iter().map(|v| v.position).collect();
    assert_eq!(
        positions,
        vec![
            bits([0.0, 0.0, 0.0]),
            bits([1.0, 0.0, 0.0]),
            bits([0.0, 1.0, 0.0]),
            bits([1.0, 0.0, 0.0]),
            bits([1.0, 1.0, 0.0]),
            bits([0.0, 1.0, 0.0]),
        ]
    );
    for v in &mesh.vertices {
        assert_eq!(v.normal, bits([0.0, 0.0, 1.0]));
    }
}

#[test]
fn loads_binary_stl_bytes() {
    let mut bytes = vec![0u8; 80];
    bytes.extend_from_slice(&1u32.to_le_bytes());
    let floats: [f32; 12] = [0.0, 0.0, 1.0, 0.0, 0.0, 0.0, 2.0, 0.0, 0.0, 0.0, 3.0, 0.5];
    for f in floats {
        bytes.extend_from_slice(&f.to_le_bytes());
    }
    bytes.extend_from_slice(&0u16.to_le_bytes());
    let mesh = load_stl_bytes(&bytes).unwrap();
    assert_eq!(mesh.indices, vec![0, 1, 2]);
    assert_eq!(mesh.vertices[1].position, bits([2.0, 0.0, 0.0]));
    assert_eq!(mesh.vertices[2].position, bits([0.0, 3.0, 0.5]));
    assert_eq!(mesh.vertices[0].normal, bits([0.0, 0.0, 1.0]));
}

#[test]
fn refuses_truncated_stl() {
    assert!(matches!(load_stl_bytes(b"solid t\nfacet normal 0 0 1\n"), Err(StlError::Parse(_))));
    assert!(matches!(load_stl_bytes(&[0u8; 10]), Err(StlError::Parse(_))));
}
