use fdtd_wave::grid::{Grid, GridError};
use fdtd_wave::medium::fill_cells;
use fdtd_wave::region::square_cells;

#[test]
fn fill_sets_listed_cells_only() {
    let mut data = vec![1.0f32; 6];
    assert_eq!(fill_cells(&mut data, &vec![1, 4], 100.0), Ok(()));
    assert_eq!(data, vec![1.0, 100.0, 1.0, 1.0, 100.0, 1.0]);
}

#[test]
fn fill_twice_equals_fill_once() {
    let mut once = vec![0.5f32, -2.0, 3.0, 7.0];
    let cells = vec![0, 2, 2];
    fill_cells(&mut once, &cells, 9.0).unwrap();
    let mut twice = once.clone();
    fill_cells(&mut twice, &cells, 9.0).unwrap();
    assert_eq!(once, twice);
    assert_eq!(once, vec![9.0, -2.0, 9.0, 7.0]);
}

#[test]
fn fill_with_cell_out_of_range_writes_nothing() {
    let mut data = vec![1u8, 2, 3];
    assert_eq!(fill_cells(&mut data, &vec![0, 3], 0), Err(GridError::IndexOutOfBounds));
    assert_eq!(data, vec![1, 2, 3]);
}

#[test]
fn fill_with_no_cells_changes_nothing() {
    let mut data = vec![4i32; 3];
    assert_eq!(fill_cells(&mut data, &Vec::new(), 0), Ok(()));
    assert_eq!(data, vec![4, 4, 4]);
}

#[test]
fn painting_an_obstacle_at_the_edge_marks_density_and_speed() {
    let g = Grid::new(6, 5).unwrap();
    let mut density = vec![1.0f32; g.len()];
    let mut speed = vec![1.0f32; g.len()];
    let cells = square_cells(&g, 5, 4, 1);
    assert_eq!(cells, vec![22, 23, 28, 29]);
    fill_cells(&mut density, &cells, 100.0).unwrap();
    fill_cells(&mut speed, &cells, 0.0).unwrap();
    for i in 0..g.len() {
        let inside = cells.contains(&i);
        assert_eq!(density[i], if inside { 100.0 } else { 1.0 });
        assert_eq!(speed[i], if inside { 0.0 } else { 1.0 });
    }
}

#[test]
fn coords_inverts_index() {
    let g = Grid::new(800, 600).unwrap();
    assert_eq!(g.coords(300 * 800 + 400), Ok((400, 300)));
    assert_eq!(g.coords(0), Ok((0, 0)));
    assert_eq!(g.coords(479_999), Ok((799, 599)));
    assert_eq!(g.coords(480_000), Err(GridError::IndexOutOfBounds));
    assert_eq!(Grid::new(0, 5).unwrap().coords(0), Err(GridError::IndexOutOfBounds));
}
