use lifers_raylib::geometry::{Geometry, GeometryError, DEFAULT_CELL_MARGIN};

/// A length in pixels.
fn pixels(units: u128, geometry: &Geometry) -> f64 {
    units as f64 / geometry.units_per_pixel() as f64
}

#[test]
fn single_cell_fills_a_square_window() {
    let geometry = Geometry::new((100, 100), (1, 1), 0).unwrap();
    assert_eq!(geometry.cell_side(), 100 * geometry.units_per_pixel());
    assert_eq!(geometry.center_translation(), (0, 0));
    assert_eq!(geometry.cell_position(0, 0), (0, 0));
    assert_eq!(pixels(geometry.cell_side(), &geometry), 100.0);
    assert_eq!(geometry.units_per_pixel(), 2);
    assert_eq!(geometry.cell_side(), 200);
}

#[test]
fn two_by_one_grid_fills_a_two_by_one_window() {
    let geometry = Geometry::new((100, 50), (2, 1), 0).unwrap();
    let units = geometry.units_per_pixel();
    assert_eq!(geometry.cell_side(), 50 * units);
    assert_eq!(geometry.center_translation(), (0, 0));
    assert_eq!(geometry.grid_pixel_size(), (100 * units, 50 * units));
    assert_eq!(geometry.cell_position(1, 0), (50 * units, 0));
}

#[test]
fn narrower_axis_bounds_the_cell_side() {
    // Two columns in 50 pixels give 25 each; one row would allow 50.
    let geometry = Geometry::new((50, 50), (2, 1), 0).unwrap();
    let units = geometry.units_per_pixel();
    assert_eq!(geometry.cell_side(), 25 * units);
    assert_eq!(geometry.grid_pixel_size(), (50 * units, 25 * units));
    let (dx, dy) = geometry.center_translation();
    assert_eq!(dx, 0);
    assert!(dy > 0);
    assert_eq!(pixels(dy, &geometry), 12.5);
    // As much room below the grid as above it.
    assert_eq!(2 * dy + geometry.grid_pixel_size().1, 50 * units);
}

#[test]
fn wider_window_centres_the_grid_horizontally() {
    let geometry = Geometry::new((100, 25), (2, 1), 0).unwrap();
    let units = geometry.units_per_pixel();
    assert_eq!(geometry.cell_side(), 25 * units);
    let (dx, dy) = geometry.center_translation();
    assert_eq!(dy, 0);
    assert_eq!(dx, 25 * units);
    assert_eq!(2 * dx + geometry.grid_pixel_size().0, 100 * units);
    assert_eq!(geometry.cell_position(0, 0), (25 * units, 0));
    assert_eq!(geometry.cell_position(1, 0), (50 * units, 0));
}

#[test]
fn margins_lie_between_and_around_the_cells() {
    // 480 - 21 * 2 = 438 pixels for 20 cells: 21.9 pixels each.
    let geometry = Geometry::new((480, 480), (20, 20), 2).unwrap();
    let units = geometry.units_per_pixel();
    assert_eq!(units, 40);
    assert_eq!(geometry.cell_side(), 876);
    assert_eq!(pixels(geometry.cell_side(), &geometry), 21.9);
    assert_eq!(geometry.center_translation(), (0, 0));
    assert_eq!(geometry.grid_pixel_size(), (480 * units, 480 * units));
    assert_eq!(geometry.cell_position(0, 0), (2 * units, 2 * units));
    let step = geometry.cell_side() + 2 * units;
    assert_eq!(geometry.cell_position(3, 7), (2 * units + 3 * step, 2 * units + 7 * step));
    // The last cell ends one margin before the edge of the window.
    let (x, y) = geometry.cell_position(19, 19);
    assert_eq!(x + geometry.cell_side() + 2 * units, 480 * units);
    assert_eq!(y + geometry.cell_side() + 2 * units, 480 * units);
}

#[test]
fn cell_side_need_not_be_a_whole_number_of_pixels() {
    let geometry = Geometry::new((100, 100), (3, 3), 0).unwrap();
    let side = pixels(geometry.cell_side(), &geometry);
    assert!((side - 100.0 / 3.0).abs() < 1e-9);
    assert_eq!(3 * geometry.cell_side(), 100 * geometry.units_per_pixel());
    assert_eq!(geometry.center_translation(), (0, 0));
}

#[test]
fn non_square_grid_with_margin() {
    // Width: (1024 - 11 * 5) / 10 = 96.9; height: (768 - 11 * 5) / 10 = 71.3.
    let geometry = Geometry::new((1024, 768), (10, 10), 5).unwrap();
    let units = geometry.units_per_pixel();
    assert_eq!(units, 20);
    assert_eq!(geometry.cell_side(), 1426);
    assert_eq!(pixels(geometry.cell_side(), &geometry), 71.3);
    let (width, height) = geometry.grid_pixel_size();
    assert_eq!(height, 768 * units);
    assert_eq!(width, 10 * 1426 + 11 * 5 * units);
    let (dx, dy) = geometry.center_translation();
    assert_eq!(dy, 0);
    assert_eq!(2 * dx + width, 1024 * units);
    assert_eq!(pixels(dx, &geometry), 128.0);
}

#[test]
fn getters_return_what_the_geometry_was_made_from() {
    let geometry = Geometry::new((640, 480), (8, 6), 3).unwrap();
    assert_eq!(geometry.window_size(), (640, 480));
    assert_eq!(geometry.grid_dimensions(), (8, 6));
    assert_eq!(geometry.cell_margin(), 3);
    assert_eq!(DEFAULT_CELL_MARGIN, 5);
}

#[test]
fn grid_without_cells_is_rejected() {
    assert_eq!(Geometry::new((100, 100), (0, 1), 0).err(), Some(GeometryError::EmptyGrid));
    assert_eq!(Geometry::new((100, 100), (1, 0), 0).err(), Some(GeometryError::EmptyGrid));
    assert_eq!(Geometry::new((100, 100), (0, 0), 5).err(), Some(GeometryError::EmptyGrid));
    assert_eq!(Geometry::new((0, 0), (0, 3), 5).err(), Some(GeometryError::EmptyGrid));
}

#[test]
fn window_that_the_margins_fill_is_rejected() {
    // Five margins of 2 pixels take all 10 pixels of the width.
    assert_eq!(
        Geometry::new((10, 100), (4, 1), 2).err(),
        Some(GeometryError::GridExceedsWindow)
    );
    assert_eq!(
        Geometry::new((100, 4), (1, 1), 2).err(),
        Some(GeometryError::GridExceedsWindow)
    );
    assert_eq!(
        Geometry::new((0, 100), (1, 1), 0).err(),
        Some(GeometryError::GridExceedsWindow)
    );
    assert_eq!(
        Geometry::new((100, 100), (usize::MAX, 1), 1).err(),
        Some(GeometryError::GridExceedsWindow)
    );
    // One pixel more than the margins is enough.
    assert!(Geometry::new((11, 100), (4, 1), 2).is_ok());
}

#[test]
fn largest_inputs_are_laid_out() {
    let geometry = Geometry::new((u32::MAX, u32::MAX), (usize::MAX, usize::MAX), 0).unwrap();
    assert_eq!(geometry.units_per_pixel(), 2 * usize::MAX as u128);
    assert_eq!(geometry.cell_side(), 2 * u32::MAX as u128);
    assert_eq!(geometry.center_translation(), (0, 0));
    let (x, y) = geometry.cell_position(usize::MAX - 1, 0);
    assert_eq!(x, (usize::MAX as u128 - 1) * geometry.cell_side());
    assert_eq!(y, 0);
}

#[test]
fn two_rows_in_a_wide_window_leave_room_at_both_sides() {
    // One column would allow 100 pixels; two rows in 50 pixels give 25.
    let geometry = Geometry::new((100, 50), (1, 2), 0).unwrap();
    let units = geometry.units_per_pixel();
    assert_eq!(geometry.cell_side(), 25 * units);
    let (dx, dy) = geometry.center_translation();
    assert!(dx > 0);
    assert_eq!(pixels(dx, &geometry), 37.5);
    assert_eq!(dy, 0);
    let (width, height) = geometry.grid_pixel_size();
    assert_eq!((width, height), (25 * units, 50 * units));
    // The grid has as much room to its right as to its left.
    assert_eq!(100 * units - (dx + width), dx);
    assert_eq!(geometry.cell_position(0, 1), (dx, 25 * units));
}

#[test]
fn grid_is_centred_and_lies_within_the_window() {
    for &(width, height) in &[(100u32, 100u32), (640, 480), (480, 640), (1024, 768), (31, 977)] {
        for &(cols, rows) in &[(1usize, 1usize), (2, 1), (1, 2), (3, 7), (20, 20), (13, 5)] {
            for margin in 0..4u32 {
                let geometry = match Geometry::new((width, height), (cols, rows), margin) {
                    Ok(geometry) => geometry,
                    Err(error) => {
                        assert_eq!(error, GeometryError::GridExceedsWindow);
                        continue;
                    }
                };
                let units = geometry.units_per_pixel();
                let side = geometry.cell_side();
                let gap = margin as u128 * units;
                let (dx, dy) = geometry.center_translation();
                let (grid_width, grid_height) = geometry.grid_pixel_size();
                assert!(side > 0);
                assert_eq!(grid_width, cols as u128 * side + (cols as u128 + 1) * gap);
                assert_eq!(grid_height, rows as u128 * side + (rows as u128 + 1) * gap);
                assert_eq!(2 * dx + grid_width, width as u128 * units);
                assert_eq!(2 * dy + grid_height, height as u128 * units);
                // The grid fills the window along the axis that bounds the cells.
                assert!(dx == 0 || dy == 0);
                for x in 0..cols {
                    for y in 0..rows {
                        let (left, top) = geometry.cell_position(x, y);
                        assert_eq!(left, dx + gap + x as u128 * (side + gap));
                        assert_eq!(top, dy + gap + y as u128 * (side + gap));
                        assert!(left + side + gap <= width as u128 * units - dx);
                        assert!(top + side + gap <= height as u128 * units - dy);
                    }
                }
            }
        }
    }
}
