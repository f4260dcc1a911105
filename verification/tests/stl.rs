use tg::file::stl::{Stl, StlError, Tri};
use tg::geom::d3::mesh::ind::{along_y, push_vertex, IndSegMesh};
use tg::geom::d3::prim::vect::{Coords, Vector};
use tg::geom::mesh::ind::IndSeg;

fn bits(value: f32) -> u32 {
    value.to_bits()
}

fn facet(normal: [f32; 3], corners: [[f32; 3]; 3], attr: u16) -> Vec<u8> {
    let mut bytes = Vec::new();
    for value in normal.iter().chain(corners.iter().flatten()) {
        bytes.extend_from_slice(&value.to_le_bytes());
    }
    bytes.extend_from_slice(&attr.to_le_bytes());
    bytes
}

fn file(head: &[u8], facets: &[Vec<u8>]) -> Vec<u8> {
    let mut bytes = head.to_vec();
    bytes.resize(80, 0);
    bytes.extend_from_slice(&(facets.len() as u32).to_le_bytes());
    for f in facets {
        bytes.extend_from_slice(f);
    }
    bytes
}

#[test]
fn binary_file_with_two_facets() {
    let first = facet([0.0, 0.0, 1.0], [[0.0, 0.0, 0.0], [1.0, 0.0, 0.0], [0.0, 1.0, 0.0]], 0x0102);
    let second = facet([0.0, 0.0, -1.0], [[1.0, 0.0, 0.0], [0.0, 1.0, 0.0], [1.5, -2.25, 3.0e10]], 7);
    let bytes = file(b"made by hand", &[first, second]);
    assert_eq!(bytes.len(), 184);
    let stl = Stl::parse_binary(&bytes).ok().unwrap();
    assert_eq!(stl.head().len(), 80);
    assert_eq!(&stl.head()[0..12], b"made by hand");
    assert_eq!(stl.triangles().len(), 2);
    let one = &stl.triangles()[0];
    assert_eq!(one.normal(), (0, 0, 0x3f80_0000));
    assert_eq!(one.vertices(), ((0, 0, 0), (0x3f80_0000, 0, 0), (0, 0x3f80_0000, 0)));
    assert_eq!(one.attr_byte_count(), 0x0102);
    let two = &stl.triangles()[1];
    assert_eq!(two.normal(), (0, 0, 0xbf80_0000));
    assert_eq!(two.vertices().2, (bits(1.5), bits(-2.25), bits(3.0e10)));
    assert_eq!(f32::from_bits((two.vertices().2).1), -2.25);
    assert_eq!(two.attr_byte_count(), 7);
}

#[test]
fn bytes_are_read_lowest_first() {
    let mut bytes = vec![0u8; 84];
    bytes.extend_from_slice(&[0x01, 0x02, 0x03, 0x04]);
    bytes.extend_from_slice(&[0xff, 0x00, 0x00, 0x00]);
    bytes.extend_from_slice(&[0x00, 0x00, 0x00, 0x80]);
    bytes.resize(84 + 48, 0);
    bytes.extend_from_slice(&[0x34, 0x12]);
    let stl = Stl::parse_binary(&bytes).ok().unwrap();
    assert_eq!(stl.triangles()[0].normal(), (0x0403_0201, 0xff, 0x8000_0000));
    assert_eq!(stl.triangles()[0].attr_byte_count(), 0x1234);
    assert_eq!(Stl::read_vect_from_bytes(&bytes, 84), Ok((0x0403_0201, 0xff, 0x8000_0000)));
}

#[test]
fn files_of_a_wrong_size_are_refused() {
    for len in [0usize, 1, 80, 83, 84, 85, 133, 135, 183] {
        let bytes = vec![0u8; len];
        assert_eq!(Stl::parse_binary(&bytes).err(), Some(StlError::InvalidSize));
    }
    for len in [134usize, 184, 84 + 50 * 7] {
        assert!(Stl::parse_binary(&vec![0u8; len]).is_ok());
    }
}

#[test]
fn text_files_are_refused() {
    let one = facet([0.0; 3], [[0.0; 3]; 3], 0);
    assert_eq!(Stl::parse_binary(&file(b"solid cube", &[one.clone()])).err(), Some(StlError::Ascii));
    // the size is looked at first
    assert_eq!(Stl::parse_binary(b"solid cube").err(), Some(StlError::InvalidSize));
    assert!(Stl::parse_binary(&file(b"solidcube", &[one.clone()])).is_ok());
    assert!(Stl::parse_binary(&file(b"Solid cube", &[one])).is_ok());
}

#[test]
fn vectors_need_more_than_twelve_bytes() {
    let bytes = vec![0u8; 20];
    assert_eq!(Stl::read_vect_from_bytes(&bytes, 8), Err(StlError::InvalidLength));
    assert_eq!(Stl::read_vect_from_bytes(&bytes, 20), Err(StlError::InvalidLength));
    assert_eq!(Stl::read_vect_from_bytes(&bytes, 7), Ok((0, 0, 0)));
}

#[test]
fn wireframe_of_two_facets_with_a_common_edge() {
    let a = (bits(0.0), bits(0.0), bits(0.0));
    let b = (bits(1.0), bits(0.0), bits(0.0));
    let c = (bits(0.0), bits(1.0), bits(0.0));
    let d = (bits(1.0), bits(1.0), bits(0.0));
    let normal = (0, 0, bits(1.0));
    let stl = Stl::new(vec![0; 80], vec![Tri::new(normal, (a, b, c), 0), Tri::new(normal, (c, b, d), 0)]);
    let mesh = IndSegMesh::from_stl(&stl);
    assert_eq!(*mesh.vertices(), vec![a, b, c, d]);
    let edges: Vec<(usize, usize)> = mesh.segments().iter().map(|s| (s.a(), s.b())).collect();
    assert_eq!(edges, vec![(0, 1), (1, 2), (2, 0), (1, 3), (3, 2)]);
    let flat = mesh.proj_2d(|vertex: &(u32, u32, u32)| (vertex.x(), vertex.y()));
    assert_eq!(*flat.vertices(), vec![(a.0, a.1), (b.0, b.1), (c.0, c.1), (d.0, d.1)]);
    assert_eq!(flat.segments().len(), 5);
    assert!(flat.valid());
    assert_eq!(along_y(&(1, 2, 3)), (1, 3));
}

#[test]
fn space_vectors() {
    let p: (i64, i64, i64) = (1, 2, 3);
    assert_eq!((p.x(), p.y(), p.z()), (1, 2, 3));
    assert!(p.equal((1, 2, 3)) && !p.equal((1, 2, 4)) && !p.equal((0, 2, 3)));
    assert_eq!(<(i64, i64, i64) as Vector>::of(&p), (1, 2, 3));
    let mut vertices = vec![(1i64, 2i64, 3i64)];
    assert_eq!(push_vertex(&mut vertices, (1, 2, 3)), 0);
    assert_eq!(push_vertex(&mut vertices, (3, 2, 1)), 1);
    assert_eq!(vertices, vec![(1, 2, 3), (3, 2, 1)]);
    let mesh = IndSegMesh::new_unchecked(vertices, vec![IndSeg::new(0, 1)]);
    assert_eq!((mesh.vertices().len(), mesh.segments().len()), (2, 1));
}
