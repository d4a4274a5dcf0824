use mandelbrot::grid::{Grid, RenderError};

#[test]
fn grid_keeps_its_dimensions() {
    let g = Grid::new(3600, 2400).unwrap();
    assert_eq!(g.width(), 3600);
    assert_eq!(g.height(), 2400);
    assert_eq!(g.pixel_count(), 8_640_000);
    assert_eq!(g.buffer_len(), 25_920_000);
}

#[test]
fn grid_rejects_zero_width() {
    assert_eq!(Grid::new(0, 5).err(), Some(RenderError::InvalidConfiguration));
}

#[test]
fn grid_rejects_zero_height() {
    assert_eq!(Grid::new(5, 0).err(), Some(RenderError::InvalidConfiguration));
}

#[test]
fn grid_rejects_a_pixel_count_past_the_index_type() {
    assert_eq!(Grid::new(65_536, 65_536).err(), Some(RenderError::InvalidConfiguration));
    assert_eq!(Grid::new(u32::MAX, 2).err(), Some(RenderError::InvalidConfiguration));
    assert_eq!(Grid::new(u32::MAX, u32::MAX).err(), Some(RenderError::InvalidConfiguration));
}

#[test]
fn grid_accepts_the_largest_indexable_count() {
    if (usize::MAX as u128) >= 3 * (u32::MAX as u128) {
        let g = Grid::new(u32::MAX, 1).unwrap();
        assert_eq!(g.pixel_count(), u32::MAX);
        assert_eq!(g.buffer_len(), 3 * (u32::MAX as usize));
        assert!(Grid::new(65_535, 65_537).is_ok());
    }
}

#[test]
fn grid_one_by_one() {
    let g = Grid::new(1, 1).unwrap();
    assert_eq!(g.pixel_count(), 1);
    assert_eq!(g.buffer_len(), 3);
    assert_eq!(g.coord(0), Some((0, 0)));
    assert_eq!(g.coord(1), None);
    assert_eq!(g.index(0, 0), Some(0));
}

#[test]
fn grid_coord_is_mod_and_div() {
    let g = Grid::new(3, 2).unwrap();
    assert_eq!(g.coord(0), Some((0, 0)));
    assert_eq!(g.coord(2), Some((2, 0)));
    assert_eq!(g.coord(3), Some((0, 1)));
    assert_eq!(g.coord(4), Some((1, 1)));
    assert_eq!(g.coord(5), Some((2, 1)));
    assert_eq!(g.coord(6), None);
    assert_eq!(g.coord(u32::MAX), None);
}

#[test]
fn grid_index_is_row_major() {
    let g = Grid::new(3, 2).unwrap();
    assert_eq!(g.index(0, 0), Some(0));
    assert_eq!(g.index(2, 0), Some(2));
    assert_eq!(g.index(0, 1), Some(3));
    assert_eq!(g.index(2, 1), Some(5));
    assert_eq!(g.index(3, 0), None);
    assert_eq!(g.index(0, 2), None);
}

#[test]
fn grid_index_and_coord_are_inverse() {
    let g = Grid::new(7, 5).unwrap();
    for p in 0..g.pixel_count() {
        let (col, row) = g.coord(p).unwrap();
        assert!(col < 7 && row < 5);
        assert_eq!(g.index(col, row), Some(p));
    }
    for row in 0..5 {
        for col in 0..7 {
            let p = g.index(col, row).unwrap();
            assert_eq!(g.coord(p), Some((col, row)));
        }
    }
}
