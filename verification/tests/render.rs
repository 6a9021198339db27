use lifers_raylib::geometry::Geometry;
use lifers_raylib::render::{dense_frame, sparse_frame, CellRect, Color, PopulatedCell};

const WHITE: Color = Color { r: 255, g: 255, b: 255, a: 255 };
const RED: Color = Color { r: 230, g: 41, b: 55, a: 255 };
const GREEN: Color = Color { r: 0, g: 228, b: 48, a: 255 };

#[test]
fn named_colors() {
    assert_eq!(Color::gray(), Color { r: 130, g: 130, b: 130, a: 255 });
    assert_eq!(Color::black(), Color { r: 0, g: 0, b: 0, a: 255 });
}

#[test]
fn dense_frame_draws_every_cell_once() {
    for n in 1..=12usize {
        let geometry = Geometry::new((480, 480), (n, n), 2).unwrap();
        let alive = vec![vec![WHITE; n]; n];
        let dead = vec![vec![Color::black(); n]; n];
        assert_eq!(dense_frame(&geometry, &alive).unwrap().cells.len(), n * n);
        assert_eq!(dense_frame(&geometry, &dead).unwrap().cells.len(), n * n);
    }
}

#[test]
fn dense_frame_clears_the_canvas_to_gray() {
    let geometry = Geometry::new((100, 100), (1, 1), 0).unwrap();
    let frame = dense_frame(&geometry, &vec![vec![WHITE]]).unwrap();
    assert_eq!(frame.background, Color::gray());
    assert_eq!(frame.cells, vec![CellRect { x: 0, y: 0, side: 200, color: WHITE }]);
}

#[test]
fn dense_frame_goes_row_by_row() {
    let geometry = Geometry::new((300, 200), (3, 2), 0).unwrap();
    let units = geometry.units_per_pixel();
    let side = geometry.cell_side();
    assert_eq!(side, 100 * units);
    let colors = vec![vec![RED, GREEN, WHITE], vec![WHITE, RED, GREEN]];
    let frame = dense_frame(&geometry, &colors).unwrap();
    let expected = vec![
        CellRect { x: 0, y: 0, side, color: RED },
        CellRect { x: side, y: 0, side, color: GREEN },
        CellRect { x: 2 * side, y: 0, side, color: WHITE },
        CellRect { x: 0, y: side, side, color: WHITE },
        CellRect { x: side, y: side, side, color: RED },
        CellRect { x: 2 * side, y: side, side, color: GREEN },
    ];
    assert_eq!(frame.cells, expected);
}

#[test]
fn dense_frame_places_cells_by_the_geometry() {
    let geometry = Geometry::new((480, 480), (20, 20), 2).unwrap();
    let mut colors = vec![vec![Color::black(); 20]; 20];
    colors[7][3] = WHITE;
    let frame = dense_frame(&geometry, &colors).unwrap();
    let rect = frame.cells[7 * 20 + 3];
    assert_eq!((rect.x, rect.y), geometry.cell_position(3, 7));
    assert_eq!(rect.side, geometry.cell_side());
    assert_eq!(rect.color, WHITE);
    assert_eq!(frame.cells.iter().filter(|rect| rect.color == WHITE).count(), 1);
}

#[test]
fn dense_frame_needs_colors_in_the_shape_of_the_grid() {
    let geometry = Geometry::new((300, 200), (3, 2), 0).unwrap();
    assert!(dense_frame(&geometry, &vec![vec![RED; 3]; 2]).is_some());
    assert!(dense_frame(&geometry, &vec![vec![RED; 3]; 1]).is_none());
    assert!(dense_frame(&geometry, &vec![vec![RED; 3]; 3]).is_none());
    assert!(dense_frame(&geometry, &vec![vec![RED; 2]; 2]).is_none());
    assert!(dense_frame(&geometry, &vec![vec![RED; 3], vec![RED; 4]]).is_none());
    assert!(dense_frame(&geometry, &vec![vec![RED; 2], vec![RED; 3]]).is_none());
    assert!(dense_frame(&geometry, &Vec::new()).is_none());
}

#[test]
fn sparse_frame_paints_one_populated_cell_among_nine() {
    let geometry = Geometry::new((300, 300), (3, 3), 0).unwrap();
    let populated = vec![PopulatedCell { x: 1, y: 1, color: WHITE }];
    let default_color = Color { r: 10, g: 20, b: 30, a: 255 };
    let frame = sparse_frame(&geometry, &populated, default_color);
    assert_eq!(frame.background, Color::gray());
    assert_eq!(frame.cells.len(), 9);
    assert_eq!(frame.cells.iter().filter(|rect| rect.color == default_color).count(), 8);
    assert_eq!(frame.cells.iter().filter(|rect| rect.color == WHITE).count(), 1);
    let rect = frame.cells[4];
    assert_eq!(rect.color, WHITE);
    assert_eq!((rect.x, rect.y), geometry.cell_position(1, 1));
    assert_eq!(rect.side, geometry.cell_side());
}

#[test]
fn sparse_frame_goes_column_by_column() {
    let geometry = Geometry::new((200, 300), (2, 3), 0).unwrap();
    let side = geometry.cell_side();
    let populated = vec![
        PopulatedCell { x: 1, y: 0, color: RED },
        PopulatedCell { x: 0, y: 2, color: GREEN },
    ];
    let frame = sparse_frame(&geometry, &populated, Color::black());
    let black = Color::black();
    let expected = vec![
        CellRect { x: 0, y: 0, side, color: black },
        CellRect { x: 0, y: side, side, color: black },
        CellRect { x: 0, y: 2 * side, side, color: GREEN },
        CellRect { x: side, y: 0, side, color: RED },
        CellRect { x: side, y: side, side, color: black },
        CellRect { x: side, y: 2 * side, side, color: black },
    ];
    assert_eq!(frame.cells, expected);
}

#[test]
fn sparse_frame_without_cells_is_all_default() {
    let geometry = Geometry::new((1024, 768), (10, 10), 5).unwrap();
    let frame = sparse_frame(&geometry, &Vec::new(), Color::black());
    assert_eq!(frame.cells.len(), 100);
    assert!(frame.cells.iter().all(|rect| rect.color == Color::black()));
    assert!(frame.cells.iter().all(|rect| rect.side == geometry.cell_side()));
    for x in 0..10 {
        for y in 0..10 {
            let rect = frame.cells[x * 10 + y];
            assert_eq!((rect.x, rect.y), geometry.cell_position(x, y));
        }
    }
}

#[test]
fn sparse_frame_leaves_out_cells_beyond_the_bounding_box() {
    let geometry = Geometry::new((300, 300), (3, 3), 0).unwrap();
    let populated = vec![
        PopulatedCell { x: 3, y: 0, color: RED },
        PopulatedCell { x: 0, y: 3, color: RED },
        PopulatedCell { x: usize::MAX, y: usize::MAX, color: RED },
        PopulatedCell { x: 2, y: 2, color: GREEN },
    ];
    let frame = sparse_frame(&geometry, &populated, Color::black());
    assert_eq!(frame.cells.len(), 9);
    assert_eq!(frame.cells.iter().filter(|rect| rect.color == RED).count(), 0);
    assert_eq!(frame.cells[8].color, GREEN);
    assert_eq!(frame.cells.iter().filter(|rect| rect.color == Color::black()).count(), 8);
}

#[test]
fn sparse_frame_takes_the_entry_listed_last() {
    let geometry = Geometry::new((300, 300), (3, 3), 0).unwrap();
    let populated = vec![
        PopulatedCell { x: 1, y: 2, color: RED },
        PopulatedCell { x: 0, y: 0, color: WHITE },
        PopulatedCell { x: 1, y: 2, color: GREEN },
    ];
    let frame = sparse_frame(&geometry, &populated, Color::black());
    assert_eq!(frame.cells[1 * 3 + 2].color, GREEN);
    assert_eq!(frame.cells[0].color, WHITE);
    assert_eq!(frame.cells.iter().filter(|rect| rect.color == RED).count(), 0);
}
