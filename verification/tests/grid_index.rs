use oracle::grid::{jacobi_result_in_scratch, total_cells, GridShape};
use oracle::types::SliceAxis;

#[test]
fn total_cells_is_cube() {
    assert_eq!(total_cells(64), 262_144);
    assert_eq!(total_cells(0), 0);
    assert_eq!(total_cells(2_642_245), 2_642_245u64.pow(3));
}

#[test]
fn buffer_lengths_and_dispatch() {
    let g = GridShape::for_cells(2);
    assert_eq!(g.n1, 3);
    assert_eq!(g.scalar_len(), 27);
    assert_eq!(g.vec_len(), 108);
    assert_eq!(g.workgroups(), 1);
    let big = GridShape::for_cells(64);
    assert_eq!(big.scalar_len(), 274_625);
    assert_eq!(big.workgroups(), 1073);
    let exact = GridShape { n1: 16 };
    assert_eq!(exact.workgroups(), 16);
}

#[test]
fn sponge_depth() {
    assert_eq!(GridShape { n1: 65 }.sponge_cells(), 8);
    assert_eq!(GridShape { n1: 33 }.sponge_cells(), 4);
    assert_eq!(GridShape { n1: 9 }.sponge_cells(), 4);
}

#[test]
fn flat_index_and_vertex_round_trip() {
    let g = GridShape { n1: 5 };
    assert_eq!(g.flat_index(1, 2, 3), 1 + 2 * 5 + 3 * 25);
    assert_eq!(g.vertex_of(86), (1, 2, 3));
    for f in 0..125 {
        let (x, y, z) = g.vertex_of(f);
        assert_eq!(g.flat_index(x, y, z), f);
    }
}

#[test]
fn boundary_vertices() {
    let g = GridShape { n1: 4 };
    assert!(g.is_boundary(0));
    assert!(!g.is_boundary(g.flat_index(1, 2, 1)));
    assert!(g.is_boundary(g.flat_index(1, 3, 1)));
    let interior = (0..64).filter(|&f| !g.is_boundary(f)).count();
    assert_eq!(interior, 8);
}

#[test]
fn slice_reading_order() {
    let g = GridShape { n1: 3 };
    assert_eq!(g.slice_indices(SliceAxis::Z, 1), vec![9, 10, 11, 12, 13, 14, 15, 16, 17]);
    assert_eq!(g.slice_indices(SliceAxis::Y, 2), vec![6, 7, 8, 15, 16, 17, 24, 25, 26]);
    assert_eq!(g.slice_indices(SliceAxis::X, 0), vec![0, 3, 6, 9, 12, 15, 18, 21, 24]);
}

#[test]
fn slice_of_scalar_field() {
    let g = GridShape { n1: 2 };
    let buf: Vec<i32> = (0..8).map(|i| i * 10).collect();
    assert_eq!(g.slice_scalar(&buf, SliceAxis::Z, 1), vec![40, 50, 60, 70]);
    assert_eq!(g.slice_scalar(&buf, SliceAxis::X, 1), vec![10, 30, 50, 70]);
    let fbuf: Vec<f32> = (0..8).map(|i| i as f32 * 0.5).collect();
    assert_eq!(g.slice_scalar(&fbuf, SliceAxis::Y, 0), vec![0.0, 0.5, 2.0, 2.5]);
}

#[test]
fn jacobi_copy_back_on_even_sweeps() {
    assert!(!jacobi_result_in_scratch(0));
    assert!(!jacobi_result_in_scratch(1));
    assert!(jacobi_result_in_scratch(2));
    assert!(jacobi_result_in_scratch(64));
    assert!(!jacobi_result_in_scratch(63));
}
