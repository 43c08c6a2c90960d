use raclettui::grid::{Cell, Grid};

fn cell_eq(c: &Cell, ch: char, fg: (u8, u8, u8), bg: (u8, u8, u8)) -> bool {
    c.ch == ch && c.fg_color == fg && c.bg_color == bg
}

#[test]
fn cell_new_and_default() {
    let c = Cell::new('x', (1, 2, 3), (4, 5, 6));
    assert!(cell_eq(&c, 'x', (1, 2, 3), (4, 5, 6)));
    let d = Cell::default();
    assert!(cell_eq(&d, ' ', (255, 255, 255), (0, 0, 0)));
}

#[test]
fn grid_new_is_default_filled() {
    let g = Grid::new(2, 3);
    assert_eq!(g.rows(), 2);
    assert_eq!(g.cols(), 3);
    for r in 0..2 {
        for c in 0..3 {
            assert!(cell_eq(g.get_cell(r, c).unwrap(), ' ', (255, 255, 255), (0, 0, 0)));
        }
    }
    assert!(g.get_cell(2, 0).is_none());
    assert!(g.get_cell(0, 3).is_none());
}

#[test]
fn grid_empty_dimensions() {
    let g = Grid::new(0, 5);
    assert_eq!(g.rows(), 0);
    assert_eq!(g.cols(), 5);
    assert!(g.get_cell(0, 0).is_none());
}

#[test]
fn grid_set_then_get() {
    let mut g = Grid::new(2, 3);
    g.set_cell(1, 2, 'x', (1, 2, 3), (4, 5, 6));
    assert!(cell_eq(g.get_cell(1, 2).unwrap(), 'x', (1, 2, 3), (4, 5, 6)));
    assert!(cell_eq(g.get_cell(1, 1).unwrap(), ' ', (255, 255, 255), (0, 0, 0)));
    assert!(cell_eq(g.get_cell(0, 2).unwrap(), ' ', (255, 255, 255), (0, 0, 0)));
}

#[test]
fn grid_set_out_of_bounds_is_ignored() {
    let mut g = Grid::new(2, 3);
    g.set_cell(2, 0, 'x', (1, 2, 3), (4, 5, 6));
    g.set_cell(0, 3, 'y', (1, 2, 3), (4, 5, 6));
    for r in 0..2 {
        for c in 0..3 {
            assert!(cell_eq(g.get_cell(r, c).unwrap(), ' ', (255, 255, 255), (0, 0, 0)));
        }
    }
}

#[test]
fn grid_resize_grow_keeps_content() {
    let mut g = Grid::new(2, 3);
    g.set_cell(1, 2, 'x', (1, 2, 3), (4, 5, 6));
    g.resize(5, 4);
    assert_eq!(g.cols(), 5);
    assert_eq!(g.rows(), 4);
    assert!(cell_eq(g.get_cell(1, 2).unwrap(), 'x', (1, 2, 3), (4, 5, 6)));
    assert!(cell_eq(g.get_cell(3, 4).unwrap(), ' ', (255, 255, 255), (0, 0, 0)));
    assert!(cell_eq(g.get_cell(1, 3).unwrap(), ' ', (255, 255, 255), (0, 0, 0)));
    assert!(g.get_cell(4, 0).is_none());
}

#[test]
fn grid_grow_then_shrink_restores() {
    let mut g = Grid::new(2, 3);
    g.set_cell(0, 0, 'a', (1, 1, 1), (2, 2, 2));
    g.set_cell(1, 2, 'b', (3, 3, 3), (4, 4, 4));
    g.resize(6, 7);
    g.set_cell(5, 5, 'z', (9, 9, 9), (9, 9, 9));
    g.resize(3, 2);
    assert_eq!((g.rows(), g.cols()), (2, 3));
    assert!(cell_eq(g.get_cell(0, 0).unwrap(), 'a', (1, 1, 1), (2, 2, 2)));
    assert!(cell_eq(g.get_cell(1, 2).unwrap(), 'b', (3, 3, 3), (4, 4, 4)));
    assert!(cell_eq(g.get_cell(0, 1).unwrap(), ' ', (255, 255, 255), (0, 0, 0)));
}

#[test]
fn grid_shrink_drops_cells() {
    let mut g = Grid::new(2, 3);
    g.set_cell(1, 2, 'x', (1, 2, 3), (4, 5, 6));
    g.resize(1, 1);
    assert!(g.get_cell(1, 2).is_none());
    g.resize(3, 2);
    assert!(cell_eq(g.get_cell(1, 2).unwrap(), ' ', (255, 255, 255), (0, 0, 0)));
}

#[test]
fn grid_resize_same_size_keeps_everything() {
    let mut g = Grid::new(2, 2);
    g.set_cell(1, 1, 'q', (7, 7, 7), (8, 8, 8));
    g.resize(2, 2);
    g.resize(2, 2);
    assert!(cell_eq(g.get_cell(1, 1).unwrap(), 'q', (7, 7, 7), (8, 8, 8)));
}
