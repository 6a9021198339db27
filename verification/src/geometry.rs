//! Exact geometry of a grid of square cells centred in a window.
//!
//! The side of a cell is rarely a whole number of pixels, so lengths are
//! measured in *units*: a layout divides each pixel into
//! [`units_per_pixel`](Layout::units_per_pixel) equal parts, chosen so that
//! the cell side, the grid size and the centring offset are all whole
//! numbers of units. Dividing a length by the units per pixel gives it in
//! pixels; nothing is rounded before that.

use vstd::prelude::*;

verus! {

/// Why a grid cannot be laid out in a window.
#[derive(Clone, Copy, Debug, PartialEq, Eq, Structural)]
pub enum GeometryError {
    /// The grid has no cells along one of its axes.
    EmptyGrid,
    /// The margins alone fill the window along one of its axes, so no room
    /// is left for the cells.
    GridExceedsWindow,
}

/// The margin of a grid for which none is chosen, in pixels.
pub const DEFAULT_CELL_MARGIN: u32 = 5;

/// What a layout is computed from.
pub struct Layout {
    /// Width of the window in pixels.
    pub window_width: nat,
    /// Height of the window in pixels.
    pub window_height: nat,
    /// Number of cells along the horizontal axis.
    pub cols: nat,
    /// Number of cells along the vertical axis.
    pub rows: nat,
    /// Gap in pixels between neighbouring cells and around the grid.
    pub margin: nat,
}

impl Layout {
    /// The layout of a `grid` with `margin` in a `window`.
    pub open spec fn of(window: (u32, u32), grid: (usize, usize), margin: u32) -> Layout {
        Layout {
            window_width: window.0 as nat,
            window_height: window.1 as nat,
            cols: grid.0 as nat,
            rows: grid.1 as nat,
            margin: margin as nat,
        }
    }

    /// The layout of a grid of `grid` cells (columns, rows) in the same
    /// window and with the same margin.
    pub open spec fn resized(self, grid: (usize, usize)) -> Layout {
        Layout { cols: grid.0 as nat, rows: grid.1 as nat, ..self }
    }

    /// Pixels of the window's width that are left for cells once every
    /// margin is taken off.
    pub open spec fn room_x(self) -> int {
        self.window_width - (self.cols + 1) * self.margin
    }

    /// Pixels of the window's height that are left for cells once every
    /// margin is taken off.
    pub open spec fn room_y(self) -> int {
        self.window_height - (self.rows + 1) * self.margin
    }

    /// Both axes hold at least one cell, and the window exceeds the margins
    /// along both.
    pub open spec fn valid(self) -> bool {
        &&& self.cols >= 1
        &&& self.rows >= 1
        &&& self.room_x() > 0
        &&& self.room_y() > 0
    }

    /// Whether the width of the window bounds the cell side: the cells
    /// that would fill the width exactly are no larger than those that
    /// would fill the height, `room_x / cols <= room_y / rows`.
    pub open spec fn width_limits(self) -> bool {
        self.room_x() * self.rows <= self.room_y() * self.cols
    }

    /// Number of cells along the axis that bounds the cell side.
    pub open spec fn limit_cells(self) -> int {
        if self.width_limits() {
            self.cols as int
        } else {
            self.rows as int
        }
    }

    /// Room for cells along the axis that bounds the cell side.
    pub open spec fn limit_room(self) -> int {
        if self.width_limits() {
            self.room_x()
        } else {
            self.room_y()
        }
    }

    /// Number of units in one pixel.
    pub open spec fn units_per_pixel(self) -> int {
        2 * self.limit_cells()
    }

    /// Side of a cell in units: the smaller of `room_x / cols` and
    /// `room_y / rows` pixels.
    pub open spec fn cell_side(self) -> int {
        2 * self.limit_room()
    }

    /// The margin in units.
    pub open spec fn margin_units(self) -> int {
        self.margin * self.units_per_pixel()
    }

    /// Units taken by `cells` cells in a row with a margin before, between
    /// and after them.
    pub open spec fn extent(self, cells: int) -> int {
        cells * self.cell_side() + (cells + 1) * self.margin_units()
    }

    /// Width of the grid in units.
    pub open spec fn grid_width(self) -> int {
        self.extent(self.cols as int)
    }

    /// Height of the grid in units.
    pub open spec fn grid_height(self) -> int {
        self.extent(self.rows as int)
    }

    /// Units between the left edge of the window and that of the grid.
    pub open spec fn translation_x(self) -> int {
        (self.window_width * self.units_per_pixel() - self.grid_width()) / 2
    }

    /// Units between the top edge of the window and that of the grid.
    pub open spec fn translation_y(self) -> int {
        (self.window_height * self.units_per_pixel() - self.grid_height()) / 2
    }

    /// Left edge, in units from the left edge of the window, of the cells
    /// in column `x`.
    pub open spec fn cell_x(self, x: int) -> int {
        x * self.cell_side() + (x + 1) * self.margin_units() + self.translation_x()
    }

    /// Top edge, in units from the top edge of the window, of the cells in
    /// row `y`.
    pub open spec fn cell_y(self, y: int) -> int {
        y * self.cell_side() + (y + 1) * self.margin_units() + self.translation_y()
    }

    /// Number of cells in the grid.
    pub open spec fn cell_count(self) -> nat {
        self.cols * self.rows
    }
}

/// A product of bounded factors is bounded by the product of the bounds.
proof fn lemma_product_bound(a: int, b: int, max_a: int, max_b: int)
    requires
        0 <= a <= max_a,
        0 <= b <= max_b,
    ensures
        0 <= a * b <= max_a * max_b,
{
    assert(0 <= a * b <= max_a * max_b) by (nonlinear_arith)
        requires
            0 <= a <= max_a,
            0 <= b <= max_b,
    ;
}

/// Twice the centring offset along an axis with `cells` cells and `room`
/// pixels of room is what the window has over the grid.
proof fn lemma_axis_slack(window: int, cells: int, margin: int, limit_cells: int, limit_room: int)
    ensures
        window * (2 * limit_cells) - (cells * (2 * limit_room) + (cells + 1) * (margin * (2
            * limit_cells))) == 2 * (limit_cells * (window - (cells + 1) * margin) - cells
            * limit_room),
{
    assert(window * (2 * limit_cells) - (cells * (2 * limit_room) + (cells + 1) * (margin * (2
        * limit_cells))) == 2 * (limit_cells * (window - (cells + 1) * margin) - cells
        * limit_room)) by (nonlinear_arith);
}

impl Layout {
    /// Half of what the window's width has over the grid's, written
    /// without a division.
    pub open spec fn slack_x(self) -> int {
        self.limit_cells() * self.room_x() - self.cols * self.limit_room()
    }

    /// Half of what the window's height has over the grid's, written
    /// without a division.
    pub open spec fn slack_y(self) -> int {
        self.limit_cells() * self.room_y() - self.rows * self.limit_room()
    }

    /// The centring offsets are whole numbers of units, and never negative.
    pub proof fn lemma_translation(self)
        requires
            self.valid(),
        ensures
            self.translation_x() == self.slack_x(),
            self.translation_y() == self.slack_y(),
            self.translation_x() >= 0,
            self.translation_y() >= 0,
            self.width_limits() ==> self.translation_x() == 0,
            !self.width_limits() ==> self.translation_y() == 0,
    {
        lemma_axis_slack(
            self.window_width as int,
            self.cols as int,
            self.margin as int,
            self.limit_cells(),
            self.limit_room(),
        );
        lemma_axis_slack(
            self.window_height as int,
            self.rows as int,
            self.margin as int,
            self.limit_cells(),
            self.limit_room(),
        );
        assert(self.room_x() * self.rows == self.rows * self.room_x()) by (nonlinear_arith);
        assert(self.room_y() * self.cols == self.cols * self.room_y()) by (nonlinear_arith);
    }
}

impl Layout {
    /// The grid is centred: what the window has over the grid is split
    /// evenly between the two sides, so the grid lies within the window.
    /// Along the axis that bounds the cell side it fills the window.
    pub proof fn lemma_grid_centred(self)
        requires
            self.valid(),
        ensures
            self.translation_x() >= 0,
            self.translation_y() >= 0,
            2 * self.translation_x() + self.grid_width() == self.window_width
                * self.units_per_pixel(),
            2 * self.translation_y() + self.grid_height() == self.window_height
                * self.units_per_pixel(),
            self.width_limits() ==> self.grid_width() == self.window_width
                * self.units_per_pixel(),
            !self.width_limits() ==> self.grid_height() == self.window_height
                * self.units_per_pixel(),
    {
        self.lemma_translation();
        lemma_axis_slack(
            self.window_width as int,
            self.cols as int,
            self.margin as int,
            self.limit_cells(),
            self.limit_room(),
        );
        lemma_axis_slack(
            self.window_height as int,
            self.rows as int,
            self.margin as int,
            self.limit_cells(),
            self.limit_room(),
        );
    }

    /// The cell side is positive and is the smaller of the two sides that
    /// would fill one axis exactly: in pixels it is at most `room_x / cols`
    /// and at most `room_y / rows`, and equal to the one that bounds it.
    pub proof fn lemma_cell_side_is_smaller(self)
        requires
            self.valid(),
        ensures
            self.units_per_pixel() > 0,
            self.cell_side() > 0,
            self.cell_side() * self.cols <= self.room_x() * self.units_per_pixel(),
            self.cell_side() * self.rows <= self.room_y() * self.units_per_pixel(),
            self.width_limits() ==> self.cell_side() * self.cols == self.room_x()
                * self.units_per_pixel(),
            !self.width_limits() ==> self.cell_side() * self.rows == self.room_y()
                * self.units_per_pixel(),
    {
        self.lemma_translation();
        let n = self.limit_cells();
        let room = self.limit_room();
        assert((2 * room) * self.cols == 2 * (self.cols * room)) by (nonlinear_arith);
        assert((2 * room) * self.rows == 2 * (self.rows * room)) by (nonlinear_arith);
        assert(self.room_x() * (2 * n) == 2 * (n * self.room_x())) by (nonlinear_arith);
        assert(self.room_y() * (2 * n) == 2 * (n * self.room_y())) by (nonlinear_arith);
    }

    /// Cells follow one another at a distance of one side and one margin.
    pub proof fn lemma_cell_step(self, i: int)
        ensures
            self.cell_x(i + 1) == self.cell_x(i) + self.cell_side() + self.margin_units(),
            self.cell_y(i + 1) == self.cell_y(i) + self.cell_side() + self.margin_units(),
            self.extent(i + 1) == self.extent(i) + self.cell_side() + self.margin_units(),
            self.cell_x(i) + self.cell_side() + self.margin_units() == self.translation_x()
                + self.extent(i + 1),
            self.cell_y(i) + self.cell_side() + self.margin_units() == self.translation_y()
                + self.extent(i + 1),
    {
        let side = self.cell_side();
        let margin = self.margin_units();
        assert((i + 1) * side == i * side + side) by (nonlinear_arith);
        assert((i + 1 + 1) * margin == (i + 1) * margin + margin) by (nonlinear_arith);
    }

    /// The extent of a run of cells grows with their number.
    pub proof fn lemma_extent_grows(self, few: int, many: int)
        requires
            self.valid(),
            0 <= few <= many,
        ensures
            0 <= self.extent(few) <= self.extent(many),
    {
        self.lemma_cell_side_is_smaller();
        let side = self.cell_side();
        let margin = self.margin_units();
        assert(margin >= 0) by (nonlinear_arith)
            requires
                margin == self.margin * self.units_per_pixel(),
                self.units_per_pixel() > 0,
        ;
        assert(0 <= few * side <= many * side) by (nonlinear_arith)
            requires
                0 <= few <= many,
                side > 0,
        ;
        assert(0 <= (few + 1) * margin <= (many + 1) * margin) by (nonlinear_arith)
            requires
                0 <= few <= many,
                margin >= 0,
        ;
    }

    /// Every cell of the grid lies within the window, a margin away from
    /// the edges of the grid.
    pub proof fn lemma_cell_inside(self, x: int, y: int)
        requires
            self.valid(),
            0 <= x < self.cols,
            0 <= y < self.rows,
        ensures
            self.translation_x() + self.margin_units() <= self.cell_x(x),
            self.translation_y() + self.margin_units() <= self.cell_y(y),
            self.cell_x(x) + self.cell_side() + self.margin_units() <= self.window_width
                * self.units_per_pixel() - self.translation_x(),
            self.cell_y(y) + self.cell_side() + self.margin_units() <= self.window_height
                * self.units_per_pixel() - self.translation_y(),
    {
        self.lemma_grid_centred();
        self.lemma_cell_step(x);
        self.lemma_cell_step(y);
        self.lemma_extent_grows(x + 1, self.cols as int);
        self.lemma_extent_grows(y + 1, self.rows as int);
        self.lemma_extent_grows(0, x);
        self.lemma_extent_grows(0, y);
        assert(self.extent(0) == self.margin_units()) by (nonlinear_arith)
            requires
                self.extent(0) == 0 * self.cell_side() + (0 + 1) * self.margin_units(),
        ;
    }
}

/// The geometry of a grid in a window: computed once, then only read.
#[derive(Clone, Copy, Debug)]
pub struct Geometry {
    window_size: (u32, u32),
    grid_dimensions: (usize, usize),
    cell_margin: u32,
    units_per_pixel: u128,
    cell_side: u128,
    center_translation: (u128, u128),
}

impl View for Geometry {
    type V = Layout;

    closed spec fn view(&self) -> Layout {
        Layout::of(self.window_size, self.grid_dimensions, self.cell_margin)
    }
}

impl Geometry {
    #[verifier::type_invariant]
    spec fn inv(&self) -> bool {
        &&& self@.valid()
        &&& self.units_per_pixel == self@.units_per_pixel()
        &&& self.cell_side == self@.cell_side()
        &&& self.center_translation.0 == self@.translation_x()
        &&& self.center_translation.1 == self@.translation_y()
    }

    /// Lays out a grid of `grid_dimensions` cells (columns, rows) with
    /// `cell_margin` pixels between and around the cells in a window of
    /// `window_size` pixels (width, height).
    ///
    /// The cells are the largest squares with which the grid and its
    /// margins fit the window, and the grid is centred. A grid without
    /// cells along an axis, or a window that does not exceed the margins
    /// along both axes, is rejected.
    pub fn new(
        window_size: (u32, u32),
        grid_dimensions: (usize, usize),
        cell_margin: u32,
    ) -> (result: Result<Geometry, GeometryError>)
        ensures
            result.is_ok() <==> Layout::of(window_size, grid_dimensions, cell_margin).valid(),
            match result {
                Ok(geometry) => geometry@ == Layout::of(window_size, grid_dimensions, cell_margin),
                Err(GeometryError::EmptyGrid) => grid_dimensions.0 == 0 || grid_dimensions.1 == 0,
                Err(GeometryError::GridExceedsWindow) => {
                    &&& grid_dimensions.0 > 0
                    &&& grid_dimensions.1 > 0
                    &&& (Layout::of(window_size, grid_dimensions, cell_margin).room_x() <= 0
                        || Layout::of(window_size, grid_dimensions, cell_margin).room_y() <= 0)
                },
            },
    {
        let ghost layout = Layout::of(window_size, grid_dimensions, cell_margin);
        if grid_dimensions.0 == 0 || grid_dimensions.1 == 0 {
            return Err(GeometryError::EmptyGrid);
        }
        let cols = grid_dimensions.0 as u128;
        let rows = grid_dimensions.1 as u128;
        let margin = cell_margin as u128;
        let width = window_size.0 as u128;
        let height = window_size.1 as u128;
        let ghost most_cells: int = 0x1_0000_0000_0000_0000;
        let ghost most_pixels: int = 0x1_0000_0000;
        proof {
            lemma_product_bound(cols + 1, margin as int, most_cells, most_pixels);
            lemma_product_bound(rows + 1, margin as int, most_cells, most_pixels);
        }
        let taken_x = (cols + 1) * margin;
        let taken_y = (rows + 1) * margin;
        if taken_x >= width || taken_y >= height {
            return Err(GeometryError::GridExceedsWindow);
        }
        let room_x = width - taken_x;
        let room_y = height - taken_y;
        proof {
            lemma_product_bound(room_x as int, rows as int, most_pixels, most_cells);
            lemma_product_bound(room_y as int, cols as int, most_pixels, most_cells);
        }
        let width_limits = room_x * rows <= room_y * cols;
        let limit_cells = if width_limits {
            cols
        } else {
            rows
        };
        let limit_room = if width_limits {
            room_x
        } else {
            room_y
        };
        proof {
            layout.lemma_translation();
            lemma_product_bound(limit_cells as int, room_x as int, most_cells, most_pixels);
            lemma_product_bound(limit_cells as int, room_y as int, most_cells, most_pixels);
            lemma_product_bound(cols as int, limit_room as int, most_cells, most_pixels);
            lemma_product_bound(rows as int, limit_room as int, most_cells, most_pixels);
        }
        let translation_x = limit_cells * room_x - cols * limit_room;
        let translation_y = limit_cells * room_y - rows * limit_room;
        Ok(
            Geometry {
                window_size,
                grid_dimensions,
                cell_margin,
                units_per_pixel: 2 * limit_cells,
                cell_side: 2 * limit_room,
                center_translation: (translation_x, translation_y),
            },
        )
    }

    /// Size of the window in pixels (width, height).
    pub fn window_size(&self) -> (size: (u32, u32))
        ensures
            size.0 == self@.window_width,
            size.1 == self@.window_height,
            self@.valid(),
    {
        proof {
            use_type_invariant(self);
        }
        self.window_size
    }

    /// Number of cells along each axis (columns, rows).
    pub fn grid_dimensions(&self) -> (dimensions: (usize, usize))
        ensures
            dimensions.0 == self@.cols,
            dimensions.1 == self@.rows,
            self@.valid(),
    {
        proof {
            use_type_invariant(self);
        }
        self.grid_dimensions
    }

    /// The margin between and around cells in pixels.
    pub fn cell_margin(&self) -> (margin: u32)
        ensures
            margin == self@.margin,
            self@.valid(),
    {
        proof {
            use_type_invariant(self);
        }
        self.cell_margin
    }

    /// Number of units in one pixel. Every other length that this type
    /// hands out is in units.
    pub fn units_per_pixel(&self) -> (units: u128)
        ensures
            units == self@.units_per_pixel(),
            units > 0,
            self@.valid(),
    {
        proof {
            use_type_invariant(self);
            self@.lemma_cell_side_is_smaller();
        }
        self.units_per_pixel
    }

    /// Side of a cell in units.
    pub fn cell_side(&self) -> (side: u128)
        ensures
            side == self@.cell_side(),
            side > 0,
            self@.valid(),
    {
        proof {
            use_type_invariant(self);
            self@.lemma_cell_side_is_smaller();
        }
        self.cell_side
    }

    /// Units from the left and top edges of the window to those of the
    /// grid.
    pub fn center_translation(&self) -> (translation: (u128, u128))
        ensures
            translation.0 == self@.translation_x(),
            translation.1 == self@.translation_y(),
            self@.valid(),
    {
        proof {
            use_type_invariant(self);
        }
        self.center_translation
    }

    /// Size of the grid in units (width, height), margins included.
    pub fn grid_pixel_size(&self) -> (size: (u128, u128))
        ensures
            size.0 == self@.grid_width(),
            size.1 == self@.grid_height(),
            self@.valid(),
    {
        proof {
            use_type_invariant(self);
            self@.lemma_grid_centred();
            lemma_product_bound(
                self.window_size.0 as int,
                self.units_per_pixel as int,
                0x1_0000_0000,
                0x2_0000_0000_0000_0000,
            );
            lemma_product_bound(
                self.window_size.1 as int,
                self.units_per_pixel as int,
                0x1_0000_0000,
                0x2_0000_0000_0000_0000,
            );
        }
        let units = self.units_per_pixel;
        let width = self.window_size.0 as u128 * units - 2 * self.center_translation.0;
        let height = self.window_size.1 as u128 * units - 2 * self.center_translation.1;
        (width, height)
    }

    /// Units from the left and top edges of the window to those of the
    /// cell in column `x` and row `y` of the grid.
    pub fn cell_position(&self, x: usize, y: usize) -> (position: (u128, u128))
        requires
            x < self@.cols,
            y < self@.rows,
        ensures
            position.0 == self@.cell_x(x as int),
            position.1 == self@.cell_y(y as int),
            self@.valid(),
    {
        proof {
            use_type_invariant(self);
        }
        let (cols, rows) = self.grid_dimensions;
        let (width, height) = self.window_size;
        let left = self.edge(x, cols, width, self.center_translation.0);
        let top = self.edge(y, rows, height, self.center_translation.1);
        (left, top)
    }

    /// The near edge of cell `index` along an axis of `cells` cells that
    /// is `window` pixels long and has the grid start at `translation`.
    fn edge(&self, index: usize, cells: usize, window: u32, translation: u128) -> (edge: u128)
        requires
            index < cells,
            (cells == self@.cols && window == self@.window_width && translation
                == self@.translation_x()) || (cells == self@.rows && window
                == self@.window_height && translation == self@.translation_y()),
        ensures
            edge == index * self@.cell_side() + (index + 1) * self@.margin_units() + translation,
    {
        let ghost layout = self@;
        proof {
            use_type_invariant(self);
            layout.lemma_grid_centred();
            layout.lemma_extent_grows(index as int, cells as int);
            lemma_product_bound(
                window as int,
                layout.units_per_pixel(),
                0x1_0000_0000,
                0x2_0000_0000_0000_0000,
            );
            lemma_product_bound(
                self.cell_margin as int,
                layout.units_per_pixel(),
                0x1_0000_0000,
                0x2_0000_0000_0000_0000,
            );
        }
        let margin_units = self.cell_margin as u128 * self.units_per_pixel;
        let cells_before = index as u128 * self.cell_side;
        let margins_before = (index as u128 + 1) * margin_units;
        cells_before + margins_before + translation
    }
}

} // verus!
