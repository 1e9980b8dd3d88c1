use house_pan::geometry::{get_lines_indices, get_triangles_indices, get_vertices, Vertex};
use house_pan::settings::Translation;

#[test]
fn geometry_base_vertices_exact() {
    let v = get_vertices(&Translation { x: 0, y: 0 });
    let expected = [
        (-810, 120),
        (-810, 468),
        (-632, 291),
        (-557, 364),
        (-557, 120),
        (-557, -141),
        (-810, -141),
        (-557, -11),
        (-40, -11),
        (477, -11),
        (-300, -270),
        (220, -270),
        (-557, -526),
        (477, -526),
        (544, 236),
        (850, 408),
        (792, 168),
    ];
    assert_eq!(v.len(), 17);
    for (i, &(x, y)) in expected.iter().enumerate() {
        assert_eq!(v[i], Vertex { x, y, z: 0 });
    }
}

#[test]
fn geometry_translation_is_pure_offset() {
    let base = get_vertices(&Translation { x: 0, y: 0 });
    let moved = get_vertices(&Translation { x: 123, y: -456 });
    assert_eq!(moved.len(), 17);
    for i in 0..17 {
        assert_eq!(moved[i].x, base[i].x + 123);
        assert_eq!(moved[i].y, base[i].y - 456);
        assert_eq!(moved[i].z, 0);
    }
}

#[test]
fn geometry_triangle_indices_exact() {
    let t = get_triangles_indices();
    assert_eq!(
        t,
        vec![
            (0, 1, 2),
            (0, 3, 4),
            (0, 4, 6),
            (4, 5, 6),
            (7, 8, 12),
            (8, 10, 11),
            (8, 9, 13),
            (9, 14, 16),
            (14, 15, 16),
        ]
    );
    for &(a, b, c) in t.iter() {
        assert!(a < 17 && b < 17 && c < 17);
    }
}

#[test]
fn geometry_line_indices_exact() {
    let l = get_lines_indices();
    assert_eq!(
        l,
        vec![
            (0, 1),
            (1, 2),
            (0, 3),
            (3, 4),
            (0, 4),
            (0, 6),
            (4, 7),
            (5, 6),
            (7, 12),
            (7, 8),
            (8, 9),
            (8, 12),
            (8, 13),
            (10, 11),
            (9, 13),
            (9, 14),
            (9, 16),
            (14, 15),
            (15, 16),
        ]
    );
    for &(a, b) in l.iter() {
        assert!(a < 17 && b < 17);
    }
}

#[test]
fn geometry_large_offsets_stay_exact() {
    let far = get_vertices(&Translation { x: 1_000_000_000, y: -1_000_000_000 });
    assert_eq!(far[16].x, 792 + 1_000_000_000);
    assert_eq!(far[16].y, 168 - 1_000_000_000);
}
