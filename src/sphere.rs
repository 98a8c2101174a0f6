use vstd::prelude::*;
use crate::buffers::{all_in_range, pack_indices, IndexBuffer, NARROW_VERTEX_LIMIT};

verus! {

/// Number of vertices of a sphere with `stacks` rows and `slices` columns of quads:
/// each of the `stacks + 1` rings carries `slices + 1` vertices, the seam repeated.
pub open spec fn vertex_count(stacks: nat, slices: nat) -> nat {
    (stacks + 1) * (slices + 1)
}

/// Number of indices: two triangles, so six indices, for each quad.
pub open spec fn index_count(stacks: nat, slices: nat) -> nat {
    stacks * slices * 6
}

/// Position in the vertex list of the vertex on ring `i`, column `j`.
pub open spec fn grid_index(i: int, j: int, slices: int) -> int {
    i * (slices + 1) + j
}

/// Position in the index list of corner `c` of the quad on row `i`, column `j`.
pub open spec fn quad_position(i: int, j: int, c: int, slices: int) -> int {
    6 * (i * slices + j) + c
}

/// Vertex index at corner `c` (0 to 5) of the quad on row `i`, column `j`.
/// With `first` the quad's vertex on ring `i`, `first + 1` the next one east
/// on that ring and `second` the one north of `first` on ring `i + 1`, the quad
/// is split into the triangles (first, first + 1, second) and
/// (second, first + 1, second + 1), both counter-clockwise seen from outside.
pub open spec fn quad_corner(i: int, j: int, c: int, slices: int) -> int {
    let first = grid_index(i, j, slices);
    let second = first + slices + 1;
    if c == 0 {
        first
    } else if c == 1 {
        first + 1
    } else if c == 2 {
        second
    } else if c == 3 {
        second
    } else if c == 4 {
        first + 1
    } else {
        second + 1
    }
}

/// `g` lists the (ring, column) pair of every vertex, ring by ring.
pub open spec fn is_sphere_grid(stacks: nat, slices: nat, g: Seq<(usize, usize)>) -> bool {
    &&& g.len() == vertex_count(stacks, slices)
    &&& forall|i: int, j: int|
        0 <= i <= stacks && 0 <= j <= slices ==> #[trigger] g[grid_index(i, j, slices as int)] == (
        i as usize,
        j as usize,
    )
}

/// `ix` is the triangle list of the sphere: for each quad, row by row and
/// column by column, the six corners of `quad_corner`.
pub open spec fn is_sphere_triangles(stacks: nat, slices: nat, ix: Seq<int>) -> bool {
    &&& ix.len() == index_count(stacks, slices)
    &&& forall|i: int, j: int, c: int|
        0 <= i < stacks && 0 <= j < slices && 0 <= c < 6 ==> #[trigger] ix[quad_position(
            i,
            j,
            c,
            slices as int,
        )] == quad_corner(i, j, c, slices as int)
}

/// The sphere's vertices, indices and their 32-bit values fit the machine.
pub open spec fn sphere_fits(stacks: nat, slices: nat) -> bool {
    &&& vertex_count(stacks, slices) <= usize::MAX
    &&& vertex_count(stacks, slices) <= 0x1_0000_0000
    &&& index_count(stacks, slices) <= usize::MAX
}

/// Each factor of a product of positive numbers is at most the product.
proof fn lemma_factors_bounded(a: nat, b: nat)
    requires
        a >= 1,
        b >= 1,
    ensures
        a <= a * b,
        b <= a * b,
{
    assert(a <= a * b && b <= a * b) by (nonlinear_arith)
        requires
            a >= 1,
            b >= 1,
    ;
}

/// Row-major positions: an entry of an earlier row comes before any entry of a later one.
proof fn lemma_row_major(a: int, b: int, i: int, j: int, w: int)
    requires
        0 <= a < i,
        0 <= b < w,
        0 <= j,
    ensures
        a * w + b < i * w + j,
{
    assert(a * w + b < i * w + j) by (nonlinear_arith)
        requires
            0 <= a < i,
            0 <= b < w,
            0 <= j,
    ;
}

/// `(i + 1) * w` is `i * w + w`.
proof fn lemma_next_row(i: int, w: int)
    ensures
        (i + 1) * w == i * w + w,
{
    assert((i + 1) * w == i * w + w) by (nonlinear_arith);
}

/// Multiplication by a non-negative factor keeps order.
proof fn lemma_mul_le(a: int, b: int, w: int)
    requires
        0 <= a <= b,
        0 <= w,
    ensures
        a * w <= b * w,
{
    assert(a * w <= b * w) by (nonlinear_arith)
        requires
            0 <= a <= b,
            0 <= w,
    ;
}

/// Number of vertices that `sphere_grid` lays out.
pub fn sphere_vertex_count(stacks: usize, slices: usize) -> (r: usize)
    requires
        vertex_count(stacks as nat, slices as nat) <= usize::MAX,
    ensures
        r == vertex_count(stacks as nat, slices as nat),
{
    proof {
        lemma_factors_bounded(stacks as nat + 1, slices as nat + 1);
    }
    (stacks + 1) * (slices + 1)
}

/// The vertices of a UV sphere as (ring, column) pairs, ring by ring from the
/// south pole (ring 0) to the north pole (ring `stacks`), and within a ring
/// column by column from 0 to `slices`. Ring `i` lies at latitude
/// `pi * i / stacks - pi / 2` and column `j` at longitude `2 * pi * j / slices`;
/// the rings at the poles collapse to single points.
pub fn sphere_grid(stacks: usize, slices: usize) -> (r: Vec<(usize, usize)>)
    requires
        stacks >= 1,
        slices >= 1,
        vertex_count(stacks as nat, slices as nat) <= usize::MAX,
    ensures
        is_sphere_grid(stacks as nat, slices as nat, r@),
{
    proof {
        lemma_factors_bounded(stacks as nat + 1, slices as nat + 1);
    }
    let w: usize = slices + 1;
    let mut r: Vec<(usize, usize)> = Vec::new();
    let mut i: usize = 0;
    while i <= stacks
        invariant
            i <= stacks + 1,
            stacks + 1 <= usize::MAX,
            w == slices + 1,
            r@.len() == i * w,
            forall|a: int, b: int|
                0 <= a < i && 0 <= b <= slices ==> #[trigger] r@[grid_index(a, b, slices as int)]
                    == (a as usize, b as usize),
        decreases stacks + 1 - i,
    {
        let mut j: usize = 0;
        while j <= slices
            invariant
                i <= stacks,
                j <= w,
                w == slices + 1,
                r@.len() == i * w + j,
                forall|a: int, b: int|
                    0 <= a < i && 0 <= b <= slices ==> #[trigger] r@[grid_index(a, b, slices as int)]
                        == (a as usize, b as usize),
                forall|b: int| 0 <= b < j ==> #[trigger] r@[i * w + b] == (i, b as usize),
            decreases w - j,
        {
            proof {
                assert forall|a: int, b: int|
                    0 <= a < i && 0 <= b <= slices implies grid_index(a, b, slices as int) < i * w
                        + j by {
                    lemma_row_major(a, b, i as int, j as int, w as int);
                }
            }
            r.push((i, j));
            j = j + 1;
        }
        proof {
            lemma_next_row(i as int, w as int);
            assert forall|a: int, b: int|
                0 <= a < i + 1 && 0 <= b <= slices implies #[trigger] r@[grid_index(
                a,
                b,
                slices as int,
            )] == (a as usize, b as usize) by {
                if a == i {
                    assert(grid_index(a, b, slices as int) == i * w + b);
                }
            }
        }
        i = i + 1;
    }
    r
}

/// The triangle list of a UV sphere over the vertices of `sphere_grid`: for
/// each quad, row by row and column by column, the six corners of `quad_corner`.
/// Every index names a vertex of the grid.
pub fn sphere_indices(stacks: usize, slices: usize) -> (r: Vec<u32>)
    requires
        stacks >= 1,
        slices >= 1,
        vertex_count(stacks as nat, slices as nat) <= 0x1_0000_0000,
        index_count(stacks as nat, slices as nat) <= usize::MAX,
    ensures
        is_sphere_triangles(stacks as nat, slices as nat, r@.map_values(|w: u32| w as int)),
        forall|k: int| 0 <= k < r@.len() ==> r@[k] < vertex_count(stacks as nat, slices as nat),
{
    proof {
        lemma_factors_bounded(stacks as nat + 1, slices as nat + 1);
    }
    let ghost vc = vertex_count(stacks as nat, slices as nat);
    let w: u64 = slices as u64 + 1;
    let mut r: Vec<u32> = Vec::new();
    let mut i: usize = 0;
    while i < stacks
        invariant
            i <= stacks,
            w == slices + 1,
            vc == (stacks + 1) * w,
            vc <= 0x1_0000_0000,
            r@.len() == 6 * (i * slices),
            forall|a: int, b: int, c: int|
                0 <= a < i && 0 <= b < slices && 0 <= c < 6 ==> #[trigger] r@[quad_position(
                    a,
                    b,
                    c,
                    slices as int,
                )] == quad_corner(a, b, c, slices as int),
            forall|k: int| 0 <= k < r@.len() ==> r@[k] < vc,
        decreases stacks - i,
    {
        let mut j: usize = 0;
        while j < slices
            invariant
                i < stacks,
                j <= slices,
                w == slices + 1,
                vc == (stacks + 1) * w,
                vc <= 0x1_0000_0000,
                r@.len() == 6 * (i * slices + j),
                forall|a: int, b: int, c: int|
                    (0 <= a < i && 0 <= b < slices || a == i && 0 <= b < j) && 0 <= c < 6
                        ==> #[trigger] r@[quad_position(a, b, c, slices as int)] == quad_corner(
                        a,
                        b,
                        c,
                        slices as int,
                    ),
                forall|k: int| 0 <= k < r@.len() ==> r@[k] < vc,
            decreases slices - j,
        {
            proof {
                lemma_mul_le(i as int + 1, stacks as int, w as int);
                lemma_next_row(i as int, w as int);
                lemma_next_row(stacks as int, w as int);
                assert forall|a: int, b: int, c: int|
                    (0 <= a < i && 0 <= b < slices || a == i && 0 <= b < j) && 0 <= c
                        < 6 implies quad_position(a, b, c, slices as int) < r@.len() by {
                    if a < i {
                        lemma_row_major(a, b, i as int, j as int, slices as int);
                    }
                }
            }
            let first: u64 = i as u64 * w + j as u64;
            let second: u64 = first + w;
            let ghost before = r@;
            r.push(first as u32);
            r.push((first + 1) as u32);
            r.push(second as u32);
            r.push(second as u32);
            r.push((first + 1) as u32);
            r.push((second + 1) as u32);
            proof {
                assert forall|a: int, b: int, c: int|
                    (0 <= a < i && 0 <= b < slices || a == i && 0 <= b < j + 1) && 0 <= c
                        < 6 implies #[trigger] r@[quad_position(a, b, c, slices as int)]
                        == quad_corner(a, b, c, slices as int) by {
                    if a == i && b == j {
                        assert(quad_position(a, b, c, slices as int) == before.len() + c);
                    } else {
                        if a < i {
                            lemma_row_major(a, b, i as int, j as int, slices as int);
                        }
                        assert(r@[quad_position(a, b, c, slices as int)] == before[quad_position(
                            a,
                            b,
                            c,
                            slices as int,
                        )]);
                    }
                }
            }
            j = j + 1;
        }
        proof {
            lemma_next_row(i as int, slices as int);
        }
        i = i + 1;
    }
    proof {
        let ix = r@.map_values(|w: u32| w as int);
        assert forall|a: int, b: int, c: int|
            0 <= a < stacks && 0 <= b < slices && 0 <= c < 6 implies #[trigger] ix[quad_position(
            a,
            b,
            c,
            slices as int,
        )] == quad_corner(a, b, c, slices as int) by {
            lemma_row_major(a, b, stacks as int, 0, slices as int);
            assert(r@[quad_position(a, b, c, slices as int)] == quad_corner(a, b, c, slices as int));
        }
    }
    r
}

/// A UV sphere of unit radius: its vertices as `sphere_grid` pairs, and its
/// triangle list in the width that its vertex count calls for.
#[derive(Debug)]
pub struct SphereMesh {
    pub grid: Vec<(usize, usize)>,
    pub indices: IndexBuffer,
}

/// The UV sphere of `stacks` rows and `slices` columns of quads: the vertices
/// of `sphere_grid` and the triangles of `sphere_indices`, stored 16 bits wide
/// when there are at most `NARROW_VERTEX_LIMIT` vertices. None when there is
/// no row or no column, or when the sphere does not fit the machine
/// (`sphere_fits`).
pub fn generate_sphere(stacks: usize, slices: usize) -> (r: Option<SphereMesh>)
    ensures
        r is Some <==> stacks >= 1 && slices >= 1 && sphere_fits(stacks as nat, slices as nat),
        r matches Some(m) ==> {
            &&& is_sphere_grid(stacks as nat, slices as nat, m.grid@)
            &&& is_sphere_triangles(stacks as nat, slices as nat, m.indices.values())
            &&& (m.indices is Wide <==> vertex_count(stacks as nat, slices as nat)
                > NARROW_VERTEX_LIMIT)
        },
{
    let ghost vc = vertex_count(stacks as nat, slices as nat);
    proof {
        lemma_factors_bounded(stacks as nat + 1, slices as nat + 1);
    }
    if stacks == 0 || slices == 0 {
        return None;
    }
    let rows = match stacks.checked_add(1) {
        Some(v) => v,
        None => {
            return None;
        },
    };
    let columns = match slices.checked_add(1) {
        Some(v) => v,
        None => {
            return None;
        },
    };
    let count = match rows.checked_mul(columns) {
        Some(v) => v,
        None => {
            return None;
        },
    };
    if count as u64 > 0x1_0000_0000 {
        return None;
    }
    let quads = match stacks.checked_mul(slices) {
        Some(v) => v,
        None => {
            proof {
                lemma_mul_le(stacks as int, stacks as int + 1, slices as int);
                lemma_mul_le(slices as int, slices as int + 1, stacks as int + 1);
                assert(stacks * slices <= vc) by (nonlinear_arith)
                    requires
                        stacks * slices <= (stacks + 1) * slices,
                        slices * (stacks + 1) <= (slices + 1) * (stacks + 1),
                        vc == (stacks + 1) * (slices + 1),
                ;
            }
            return None;
        },
    };
    let total = match quads.checked_mul(6) {
        Some(v) => v,
        None => {
            return None;
        },
    };
    let grid = sphere_grid(stacks, slices);
    let wide = sphere_indices(stacks, slices);
    proof {
        assert(all_in_range(wide@, count as nat));
    }
    match pack_indices(&wide, count) {
        Ok(indices) => {
            proof {
                assert(indices.values() =~= wide@.map_values(|w: u32| w as int));
            }
            Some(SphereMesh { grid, indices })
        },
        Err(_) => None,
    }
}

} // verus!
