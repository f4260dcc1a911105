use tg::geom::d2::mesh::dedup::{push_segment, push_vertex};
use tg::geom::d2::mesh::ind::IndSegMesh;
use tg::geom::mesh::ind::IndSeg;

fn mesh(points: &[(i64, i64)], edges: &[(usize, usize)]) -> IndSegMesh<(i64, i64)> {
    let segments = edges.iter().map(|e| IndSeg::new(e.0, e.1)).collect();
    IndSegMesh::new_unchecked(points.to_vec(), segments)
}

fn edges(mesh: &IndSegMesh<(i64, i64)>) -> Vec<(usize, usize)> {
    mesh.segments().iter().map(|s| (s.a(), s.b())).collect()
}

#[test]
fn equal_vertices_become_the_first_of_them() {
    let m = mesh(&[(1, 1), (5, 0), (6, 0), (1, 1), (0, 7)], &[(0, 1), (1, 2), (3, 4), (4, 2)]);
    let d = m.deduplicate();
    assert_eq!(*d.vertices(), vec![(1, 1), (5, 0), (6, 0), (0, 7)]);
    assert_eq!(d.vertices().iter().filter(|p| **p == (1, 1)).count(), 1);
    assert_eq!(edges(&d), vec![(0, 1), (1, 2), (0, 3), (3, 2)]);
    assert!(d.valid());
}

#[test]
fn equivalent_segments_become_one() {
    let m = mesh(&[(0, 0), (1, 0), (0, 0), (1, 0)], &[(0, 1), (1, 0), (2, 3), (3, 2), (0, 1)]);
    let d = m.deduplicate();
    assert_eq!(*d.vertices(), vec![(0, 0), (1, 0)]);
    assert_eq!(edges(&d), vec![(0, 1)]);
}

#[test]
fn vertices_without_a_segment_are_left_out() {
    let m = mesh(&[(9, 9), (0, 0), (1, 0), (7, 7)], &[(2, 1)]);
    let d = m.deduplicate();
    assert_eq!(*d.vertices(), vec![(1, 0), (0, 0)]);
    assert_eq!(edges(&d), vec![(0, 1)]);
    let none = mesh(&[(9, 9)], &[]).deduplicate();
    assert!(none.vertices().is_empty() && none.segments().is_empty());
}

#[test]
fn self_loops_are_kept_once() {
    let m = mesh(&[(0, 0), (1, 0), (0, 0)], &[(0, 0), (2, 2), (0, 2), (0, 1)]);
    let d = m.deduplicate();
    assert_eq!(*d.vertices(), vec![(0, 0), (1, 0)]);
    assert_eq!(edges(&d), vec![(0, 0), (0, 1)]);
}

#[test]
fn deduplicating_twice_changes_nothing_more() {
    let m = mesh(
        &[(1, 1), (5, 0), (6, 0), (1, 1), (0, 7), (5, 0), (3, 3)],
        &[(3, 5), (0, 1), (1, 2), (3, 4), (4, 2), (2, 4), (6, 6), (5, 0)],
    );
    let once = m.deduplicate();
    let twice = once.deduplicate();
    assert_eq!(once.vertices(), twice.vertices());
    assert_eq!(edges(&once), edges(&twice));
    assert_eq!(*once.vertices(), vec![(1, 1), (5, 0), (6, 0), (0, 7), (3, 3)]);
    assert_eq!(edges(&once), vec![(0, 1), (1, 2), (0, 3), (3, 2), (4, 4)]);
}

#[test]
fn push_vertex_finds_or_appends() {
    let mut vertices = vec![(1i64, 2i64), (3, 4), (1, 2)];
    assert_eq!(push_vertex(&mut vertices, (3, 4)), 1);
    assert_eq!(push_vertex(&mut vertices, (1, 2)), 0);
    assert_eq!(vertices.len(), 3);
    assert_eq!(push_vertex(&mut vertices, (2, 1)), 3);
    assert_eq!(vertices, vec![(1, 2), (3, 4), (1, 2), (2, 1)]);
}

#[test]
fn push_segment_skips_equivalents() {
    let mut segments = vec![IndSeg::new(0, 1)];
    push_segment(&mut segments, IndSeg::new(1, 0));
    push_segment(&mut segments, IndSeg::new(0, 1));
    assert_eq!(segments.len(), 1);
    push_segment(&mut segments, IndSeg::new(1, 1));
    push_segment(&mut segments, IndSeg::new(1, 2));
    let listed: Vec<(usize, usize)> = segments.iter().map(|s| (s.a(), s.b())).collect();
    assert_eq!(listed, vec![(0, 1), (1, 1), (1, 2)]);
}

#[test]
fn indexed_segment_operations() {
    let seg = IndSeg::new(3, 7);
    assert_eq!((seg.a(), seg.b()), (3, 7));
    assert!(seg.equiv(&IndSeg::new(7, 3)));
    assert!(seg.equiv(&IndSeg::new(3, 7)));
    assert!(!seg.equiv(&IndSeg::new(3, 3)));
    assert!(seg.contains_index(7) && seg.contains_index(3) && !seg.contains_index(5));

    let mut seg = IndSeg::new(3, 7);
    seg.swap(7, 1);
    assert_eq!((seg.a(), seg.b()), (3, 1));
    seg.swap(9, 4);
    assert_eq!((seg.a(), seg.b()), (3, 1));
    let mut both = IndSeg::new(2, 2);
    both.swap(2, 5);
    assert_eq!((both.a(), both.b()), (5, 5));

    // vertex 3 is merged into vertex 1 and taken out: higher indices move down
    let mut seg = IndSeg::new(3, 7);
    seg.swap_shift(3, 1);
    assert_eq!((seg.a(), seg.b()), (1, 6));
    let mut seg = IndSeg::new(2, 4);
    seg.swap_shift(3, 9);
    assert_eq!((seg.a(), seg.b()), (2, 3));
    let mut seg = IndSeg::new(3, 0);
    seg.swap_shift(3, 5);
    assert_eq!((seg.a(), seg.b()), (4, 0));

    let mut seg = IndSeg::new(2, 9);
    seg.sort();
    assert_eq!((seg.a(), seg.b()), (2, 9));
    let mut seg = IndSeg::new(9, 2);
    seg.sort();
    assert_eq!((seg.a(), seg.b()), (2, 2));
}
