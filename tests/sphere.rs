use orrery::buffers::IndexBuffer;
use orrery::sphere::{generate_sphere, sphere_grid, sphere_indices, sphere_vertex_count};

fn narrow_values(buf: &IndexBuffer) -> Vec<u32> {
    match buf {
        IndexBuffer::Narrow(v) => v.iter().map(|&h| h as u32).collect(),
        IndexBuffer::Wide(v) => panic!("expected 16-bit indices, got {} wide ones", v.len()),
    }
}

#[test]
fn sphere_counts_match_tessellation() {
    for &(stacks, slices) in &[(1usize, 1usize), (1, 5), (4, 3), (60, 60)] {
        let mesh = generate_sphere(stacks, slices).expect("fits");
        assert_eq!(mesh.grid.len(), (stacks + 1) * (slices + 1));
        assert_eq!(mesh.indices.len(), stacks * slices * 6);
        assert_eq!(sphere_vertex_count(stacks, slices), (stacks + 1) * (slices + 1));
    }
}

#[test]
fn reference_tessellation_uses_narrow_indices() {
    let mesh = generate_sphere(60, 60).expect("fits");
    assert_eq!(mesh.grid.len(), 3721);
    assert!(!mesh.indices.is_wide());
    let values = narrow_values(&mesh.indices);
    assert_eq!(values.iter().copied().max(), Some(3720));
}

#[test]
fn large_tessellation_switches_to_wide_indices() {
    let mesh = generate_sphere(300, 300).expect("fits");
    assert_eq!(mesh.grid.len(), 90601);
    assert!(mesh.indices.is_wide());
    match &mesh.indices {
        IndexBuffer::Wide(v) => assert_eq!(v.iter().copied().max(), Some(90600)),
        IndexBuffer::Narrow(_) => panic!("expected 32-bit indices"),
    }
}

#[test]
fn single_quad_sphere_is_exact() {
    let mesh = generate_sphere(1, 1).expect("fits");
    assert_eq!(mesh.grid, vec![(0, 0), (0, 1), (1, 0), (1, 1)]);
    assert_eq!(narrow_values(&mesh.indices), vec![0, 1, 2, 2, 1, 3]);
}

#[test]
fn grid_runs_ring_by_ring() {
    let grid = sphere_grid(2, 3);
    assert_eq!(grid.len(), 12);
    assert_eq!(grid[0], (0, 0));
    assert_eq!(grid[3], (0, 3));
    assert_eq!(grid[4], (1, 0));
    assert_eq!(grid[11], (2, 3));
}

#[test]
fn quads_split_into_two_counter_clockwise_triangles() {
    let ix = sphere_indices(2, 3);
    assert_eq!(ix.len(), 36);
    // quad on row 1, column 2: first = 1 * 4 + 2 = 6, first + 1 = 7, second = 10
    let q = 6 * (1 * 3 + 2);
    assert_eq!(&ix[q..q + 6], &[6, 7, 10, 10, 7, 11]);
    assert!(ix.iter().all(|&i| i < 12));
}

#[test]
fn sphere_without_rows_or_columns_is_refused() {
    assert!(generate_sphere(0, 4).is_none());
    assert!(generate_sphere(4, 0).is_none());
    assert!(generate_sphere(0, 0).is_none());
}

#[test]
fn oversized_sphere_is_refused() {
    assert!(generate_sphere(usize::MAX, 1).is_none());
    assert!(generate_sphere(70_000, 70_000).is_none());
}

fn positions(stacks: usize, slices: usize) -> Vec<[f32; 3]> {
    sphere_grid(stacks, slices)
        .into_iter()
        .map(|(i, j)| {
            let lat = std::f32::consts::PI * i as f32 / stacks as f32 - std::f32::consts::PI / 2.0;
            let lon = 2.0 * std::f32::consts::PI * j as f32 / slices as f32;
            [lat.cos() * lon.cos(), lat.cos() * lon.sin(), lat.sin()]
        })
        .collect()
}

#[test]
fn triangles_wind_counter_clockwise_seen_from_outside() {
    let (stacks, slices) = (6usize, 8usize);
    let v = positions(stacks, slices);
    let ix = sphere_indices(stacks, slices);
    let sub = |a: [f32; 3], b: [f32; 3]| [a[0] - b[0], a[1] - b[1], a[2] - b[2]];
    let mut checked = 0;
    for t in ix.chunks(3) {
        let (a, b, c) = (v[t[0] as usize], v[t[1] as usize], v[t[2] as usize]);
        let (e1, e2) = (sub(b, a), sub(c, a));
        let n = [e1[1] * e2[2] - e1[2] * e2[1], e1[2] * e2[0] - e1[0] * e2[2], e1[0] * e2[1] - e1[1] * e2[0]];
        let area = (n[0] * n[0] + n[1] * n[1] + n[2] * n[2]).sqrt();
        if area < 1e-6 {
            continue; // collapsed at a pole
        }
        let centroid = [a[0] + b[0] + c[0], a[1] + b[1] + c[1], a[2] + b[2] + c[2]];
        assert!(n[0] * centroid[0] + n[1] * centroid[1] + n[2] * centroid[2] > 0.0, "{:?}", t);
        checked += 1;
    }
    assert!(checked >= stacks * slices);
}

#[test]
fn grid_points_lie_on_unit_sphere() {
    let (stacks, slices) = (8usize, 12usize);
    for (i, j) in sphere_grid(stacks, slices) {
        let lat = std::f32::consts::PI * i as f32 / stacks as f32 - std::f32::consts::PI / 2.0;
        let lon = 2.0 * std::f32::consts::PI * j as f32 / slices as f32;
        let p = [lat.cos() * lon.cos(), lat.cos() * lon.sin(), lat.sin()];
        let len = (p[0] * p[0] + p[1] * p[1] + p[2] * p[2]).sqrt();
        assert!((len - 1.0).abs() < 1e-5);
    }
}
