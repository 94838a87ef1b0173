//! Index arithmetic of the vertex grid that holds every field buffer.
//!
//! Vertices are stored z-major: vertex `(ix, iy, iz)` of a grid with `n1`
//! vertices per axis sits at flat index `ix + iy·n1 + iz·n1²`; vector fields
//! store four values per vertex.

use vstd::prelude::*;
use crate::types::SliceAxis;
use vstd::arithmetic::div_mod::{
    lemma_fundamental_div_mod, lemma_fundamental_div_mod_converse_div,
    lemma_fundamental_div_mod_converse_mod, lemma_div_denominator, lemma_remainder,
};

verus! {

/// Flat index of vertex `(ix, iy, iz)` on a grid of `n` vertices per axis.
pub open spec fn flat(n: int, ix: int, iy: int, iz: int) -> int {
    ix + iy * n + iz * (n * n)
}

/// The vertex `(ix, iy, iz)` at flat index `f`.
pub open spec fn vertex(n: int, f: int) -> (int, int, int) {
    (f % n, (f / n) % n, f / (n * n))
}

/// The number of scalar values a grid of `n` vertices per axis holds.
pub open spec fn cube(n: int) -> int {
    n * n * n
}

proof fn lemma_flat_bound(n: int, ix: int, iy: int, iz: int)
    by (nonlinear_arith)
    requires
        0 <= ix < n,
        0 <= iy < n,
        0 <= iz < n,
    ensures
        0 <= ix + iy * n < n * n,
        0 <= flat(n, ix, iy, iz) < cube(n),
{
    assert(ix + iy * n < n + iy * n);
    assert(n + iy * n == (iy + 1) * n);
    assert((iy + 1) * n <= n * n);
    assert(flat(n, ix, iy, iz) < n * n + iz * (n * n));
    assert(n * n + iz * (n * n) == (iz + 1) * (n * n));
    assert((iz + 1) * (n * n) <= n * (n * n));
}

/// Flat index and vertex are inverse to each other: the vertex at the flat
/// index of `(ix, iy, iz)` is `(ix, iy, iz)`.
pub proof fn lemma_vertex_of_flat(n: int, ix: int, iy: int, iz: int)
    requires
        0 <= ix < n,
        0 <= iy < n,
        0 <= iz < n,
    ensures
        vertex(n, flat(n, ix, iy, iz)) == (ix, iy, iz),
{
    let f = flat(n, ix, iy, iz);
    lemma_flat_bound(n, ix, iy, iz);
    assert(f == (iy + iz * n) * n + ix) by (nonlinear_arith)
        requires
            f == ix + iy * n + iz * (n * n),
    ;
    lemma_fundamental_div_mod_converse_mod(f, n, iy + iz * n, ix);
    lemma_fundamental_div_mod_converse_div(f, n, iy + iz * n, ix);
    assert(iy + iz * n == iz * n + iy);
    lemma_fundamental_div_mod_converse_mod(iz * n + iy, n, iz, iy);
    assert(n * n != 0) by (nonlinear_arith)
        requires
            n > 0,
    ;
    assert(f == iz * (n * n) + (ix + iy * n));
    lemma_fundamental_div_mod_converse_div(f, n * n, iz, ix + iy * n);
}

/// Every flat index below `n³` is the flat index of its vertex, and that
/// vertex lies on the grid.
pub proof fn lemma_flat_of_vertex(n: int, f: int)
    requires
        n > 0,
        0 <= f < cube(n),
    ensures
        0 <= vertex(n, f).0 < n,
        0 <= vertex(n, f).1 < n,
        0 <= vertex(n, f).2 < n,
        flat(n, vertex(n, f).0, vertex(n, f).1, vertex(n, f).2) == f,
{
    let q = f / n;
    lemma_fundamental_div_mod(f, n);
    lemma_remainder(f, n);
    lemma_fundamental_div_mod(q, n);
    lemma_remainder(q, n);
    lemma_div_denominator(f, n, n);
    let (ix, iy, iz) = vertex(n, f);
    assert(q / n == iz);
    assert(q >= 0) by (nonlinear_arith)
        requires
            f >= 0,
            n > 0,
            q == f / n,
    ;
    assert(0 <= iz) by (nonlinear_arith)
        requires
            q >= 0,
            n > 0,
            iz == q / n,
    ;
    assert(f == ix + iy * n + iz * (n * n)) by (nonlinear_arith)
        requires
            f == n * q + ix,
            q == n * iz + iy,
    ;
    assert(iz < n) by (nonlinear_arith)
        requires
            f == ix + iy * n + iz * (n * n),
            0 <= ix,
            0 <= iy,
            f < n * n * n,
            n > 0,
    ;
}

/// The vertex at position `k` of a slice through layer `layer` normal to
/// `axis`: the slice is read row by row, `k % n` running fastest.
pub open spec fn slice_vertex(n: int, axis: SliceAxis, layer: int, k: int) -> (int, int, int) {
    let a = k % n;
    let b = k / n;
    match axis {
        SliceAxis::Z => (a, b, layer),
        SliceAxis::Y => (a, layer, b),
        SliceAxis::X => (layer, a, b),
    }
}

/// Flat index of the vertex at position `k` of a slice.
pub open spec fn slice_index(n: int, axis: SliceAxis, layer: int, k: int) -> int {
    let v = slice_vertex(n, axis, layer, k);
    flat(n, v.0, v.1, v.2)
}

proof fn lemma_slice_vertex_in_grid(n: int, axis: SliceAxis, layer: int, k: int)
    requires
        0 <= layer < n,
        0 <= k < n * n,
    ensures
        0 <= slice_vertex(n, axis, layer, k).0 < n,
        0 <= slice_vertex(n, axis, layer, k).1 < n,
        0 <= slice_vertex(n, axis, layer, k).2 < n,
        0 <= slice_index(n, axis, layer, k) < cube(n),
{
    lemma_fundamental_div_mod(k, n);
    lemma_remainder(k, n);
    assert(0 <= k / n < n) by (nonlinear_arith)
        requires
            0 <= k < n * n,
            n > 0,
            k == n * (k / n) + k % n,
            0 <= k % n < n,
    ;
    let v = slice_vertex(n, axis, layer, k);
    lemma_flat_bound(n, v.0, v.1, v.2);
}

/// Distinct positions of a slice read distinct vertices, and every vertex of
/// the slice's layer is read at some position.
pub proof fn lemma_slice_is_layer(n: int, axis: SliceAxis, layer: int)
    requires
        0 <= layer < n,
    ensures
        forall|k1: int, k2: int|
            0 <= k1 < k2 < n * n ==> slice_index(n, axis, layer, k1) != slice_index(
                n,
                axis,
                layer,
                k2,
            ),
        forall|a: int, b: int|
            0 <= a < n && 0 <= b < n ==> #[trigger] slice_vertex(n, axis, layer, b * n + a) == match axis {
                SliceAxis::Z => (a, b, layer),
                SliceAxis::Y => (a, layer, b),
                SliceAxis::X => (layer, a, b),
            },
{
    assert forall|a: int, b: int| 0 <= a < n && 0 <= b < n implies #[trigger] slice_vertex(
        n,
        axis,
        layer,
        b * n + a,
    ) == match axis {
        SliceAxis::Z => (a, b, layer),
        SliceAxis::Y => (a, layer, b),
        SliceAxis::X => (layer, a, b),
    } by {
        lemma_fundamental_div_mod_converse_mod(b * n + a, n, b, a);
        lemma_fundamental_div_mod_converse_div(b * n + a, n, b, a);
    }
    assert forall|k1: int, k2: int| 0 <= k1 < k2 < n * n implies slice_index(
        n,
        axis,
        layer,
        k1,
    ) != slice_index(n, axis, layer, k2) by {
        lemma_slice_vertex_in_grid(n, axis, layer, k1);
        lemma_slice_vertex_in_grid(n, axis, layer, k2);
        let v1 = slice_vertex(n, axis, layer, k1);
        let v2 = slice_vertex(n, axis, layer, k2);
        lemma_vertex_of_flat(n, v1.0, v1.1, v1.2);
        lemma_vertex_of_flat(n, v2.0, v2.1, v2.2);
        lemma_fundamental_div_mod(k1, n);
        lemma_fundamental_div_mod(k2, n);
    }
}

/// Total number of Yee cells of a grid with `n` cells per axis (`n³`).
pub fn total_cells(n: u32) -> (r: u64)
    requires
        cube(n as int) <= u64::MAX,
    ensures
        r == cube(n as int),
{
    let m = n as u64;
    assert(m * m <= m * m * m) by (nonlinear_arith)
        requires
            m >= 0,
            m * m * m <= u64::MAX,
            m == 0 || m >= 1,
    ;
    m * m * m
}

/// Shape of the vertex grid that holds every field buffer of one solve.
#[derive(Clone, Copy, Debug)]
pub struct GridShape {
    /// Vertices per axis (cells per axis + 1).
    pub n1: u32,
}

impl GridShape {
    /// Scalar values per field buffer: `n1³`, which must fit in a `u32`.
    pub open spec fn len_spec(&self) -> int {
        cube(self.n1 as int)
    }

    /// The shape of a grid with `cells` cells per axis.
    pub fn for_cells(cells: u32) -> (r: GridShape)
        requires
            cells < u32::MAX,
        ensures
            r.n1 == cells + 1,
    {
        GridShape { n1: cells + 1 }
    }

    /// Number of values in a scalar field buffer (`n1³`).
    pub fn scalar_len(&self) -> (r: usize)
        requires
            self.len_spec() <= u32::MAX,
        ensures
            r == self.len_spec(),
    {
        let n = self.n1;
        proof {
            lemma_cube_parts(n as int);
        }
        (n * n * n) as usize
    }

    /// Number of values in a vector field buffer (four per vertex).
    pub fn vec_len(&self) -> (r: usize)
        requires
            self.len_spec() <= u32::MAX,
            4 * self.len_spec() <= usize::MAX,
        ensures
            r == 4 * self.len_spec(),
    {
        self.scalar_len() * 4
    }

    /// Number of 256-thread workgroups that cover every vertex.
    pub fn workgroups(&self) -> (r: u32)
        requires
            self.len_spec() <= u32::MAX,
        ensures
            r as int == (self.len_spec() + 255) / 256,
    {
        let t = self.scalar_len() as u32;
        let q = t / 256;
        if t % 256 == 0 {
            q
        } else {
            q + 1
        }
    }

    /// Depth of the absorbing sponge layer: an eighth of the grid, at least
    /// four cells.
    pub fn sponge_cells(&self) -> (r: u32)
        ensures
            r == if self.n1 / 8 >= 4 { self.n1 / 8 } else { 4 },
    {
        let d = self.n1 / 8;
        if d >= 4 {
            d
        } else {
            4
        }
    }

    /// Flat index of vertex `(ix, iy, iz)`.
    pub fn flat_index(&self, ix: usize, iy: usize, iz: usize) -> (r: usize)
        requires
            ix < self.n1,
            iy < self.n1,
            iz < self.n1,
            self.len_spec() <= usize::MAX,
        ensures
            r == flat(self.n1 as int, ix as int, iy as int, iz as int),
    {
        let n = self.n1 as usize;
        proof {
            lemma_flat_bound(n as int, ix as int, iy as int, iz as int);
            lemma_cube_parts(n as int);
            assert(iy * n <= ix + iy * n);
            assert(iz * (n * n) <= flat(n as int, ix as int, iy as int, iz as int));
        }
        ix + iy * n + iz * (n * n)
    }

    /// The vertex `(ix, iy, iz)` at a flat index.
    pub fn vertex_of(&self, f: usize) -> (r: (usize, usize, usize))
        requires
            self.n1 > 0,
            self.len_spec() <= usize::MAX,
        ensures
            (r.0 as int, r.1 as int, r.2 as int) == vertex(self.n1 as int, f as int),
    {
        let n = self.n1 as usize;
        proof {
            lemma_cube_parts(n as int);
        }
        let nn = n * n;
        (f % n, (f / n) % n, f / nn)
    }

    /// Whether the vertex at a flat index lies on a face of the grid.
    pub fn is_boundary(&self, f: usize) -> (r: bool)
        requires
            self.n1 > 0,
            self.len_spec() <= usize::MAX,
        ensures
            r == ({
                let v = vertex(self.n1 as int, f as int);
                v.0 == 0 || v.0 == self.n1 - 1 || v.1 == 0 || v.1 == self.n1 - 1 || v.2 == 0
                    || v.2 == self.n1 - 1
            }),
    {
        let (ix, iy, iz) = self.vertex_of(f);
        let m = (self.n1 - 1) as usize;
        ix == 0 || ix == m || iy == 0 || iy == m || iz == 0 || iz == m
    }

    /// Flat indices of the vertices of the slice through `layer` normal to
    /// `axis`, in reading order.
    pub fn slice_indices(&self, axis: SliceAxis, layer: u32) -> (r: Vec<usize>)
        requires
            layer < self.n1,
            self.len_spec() <= usize::MAX,
        ensures
            r@.len() == self.n1 * self.n1,
            forall|k: int|
                0 <= k < r@.len() ==> r@[k] as int == slice_index(
                    self.n1 as int,
                    axis,
                    layer as int,
                    k,
                ),
    {
        let n = self.n1 as usize;
        proof {
            lemma_cube_parts(n as int);
        }
        let total = n * n;
        let mut r: Vec<usize> = Vec::new();
        let mut k: usize = 0;
        while k < total
            invariant
                n == self.n1,
                total == n * n,
                layer < n,
                self.len_spec() <= usize::MAX,
                cube(n as int) == n * (n * n),
                k <= total,
                r@.len() == k,
                forall|j: int|
                    0 <= j < k ==> r@[j] as int == slice_index(n as int, axis, layer as int, j),
            decreases total - k,
        {
            proof {
                lemma_slice_vertex_in_grid(n as int, axis, layer as int, k as int);
            }
            let a = k % n;
            let b = k / n;
            let l = layer as usize;
            let idx = match axis {
                SliceAxis::Z => self.flat_index(a, b, l),
                SliceAxis::Y => self.flat_index(a, l, b),
                SliceAxis::X => self.flat_index(l, a, b),
            };
            r.push(idx);
            k = k + 1;
        }
        r
    }

    /// The values of a scalar field on the slice through `layer` normal to
    /// `axis`, in reading order.
    pub fn slice_scalar<T: Copy>(&self, buf: &Vec<T>, axis: SliceAxis, layer: u32) -> (r: Vec<T>)
        requires
            layer < self.n1,
            self.len_spec() <= usize::MAX,
            buf@.len() >= self.len_spec(),
        ensures
            r@.len() == self.n1 * self.n1,
            forall|k: int|
                0 <= k < r@.len() ==> r@[k] == buf@[slice_index(
                    self.n1 as int,
                    axis,
                    layer as int,
                    k,
                )],
    {
        let idx = self.slice_indices(axis, layer);
        let mut r: Vec<T> = Vec::new();
        let mut k: usize = 0;
        while k < idx.len()
            invariant
                layer < self.n1,
                buf@.len() >= self.len_spec(),
                idx@.len() == self.n1 * self.n1,
                forall|j: int|
                    0 <= j < idx@.len() ==> idx@[j] as int == slice_index(
                        self.n1 as int,
                        axis,
                        layer as int,
                        j,
                    ),
                k <= idx.len(),
                r@.len() == k,
                forall|j: int|
                    0 <= j < k ==> r@[j] == buf@[slice_index(
                        self.n1 as int,
                        axis,
                        layer as int,
                        j,
                    )],
            decreases idx.len() - k,
        {
            proof {
                lemma_slice_vertex_in_grid(self.n1 as int, axis, layer as int, k as int);
            }
            r.push(buf[idx[k]]);
            k = k + 1;
        }
        r
    }
}

/// After `n_iter` Jacobi sweeps that alternate between the potential buffer
/// and a scratch buffer, the first sweep reading the scratch buffer and
/// writing the potential, whether the last sweep wrote the scratch buffer,
/// which must then be copied back so that the solution ends in the potential.
pub fn jacobi_result_in_scratch(n_iter: u32) -> (r: bool)
    ensures
        r == (n_iter > 0 && n_iter % 2 == 0),
{
    let mut reads_scratch = true;
    let mut last_wrote_scratch = false;
    let mut i: u32 = 0;
    while i < n_iter
        invariant
            i <= n_iter,
            reads_scratch == (i % 2 == 0),
            last_wrote_scratch == (i > 0 && i % 2 == 0),
        decreases n_iter - i,
    {
        last_wrote_scratch = !reads_scratch;
        reads_scratch = !reads_scratch;
        i = i + 1;
    }
    last_wrote_scratch
}

proof fn lemma_cube_parts(n: int)
    by (nonlinear_arith)
    requires
        n >= 0,
    ensures
        n <= n * n || n == 0,
        n * n <= cube(n) || n == 0,
        n * n >= 0,
        cube(n) == n * (n * n),
        cube(n) >= 0,
{
}

} // verus!
