//! Frames: what is to be drawn for a grid, as plain values.
//!
//! A frame is a canvas colour and one square per cell, placed by the
//! [`Geometry`] of the grid. Lengths are in the units of that geometry.

use crate::geometry::{Geometry, Layout};
use vstd::prelude::*;

verus! {

/// A colour with 8 bits per channel.
#[derive(Clone, Copy, Debug, PartialEq, Eq, Structural)]
pub struct Color {
    pub r: u8,
    pub g: u8,
    pub b: u8,
    pub a: u8,
}

impl Color {
    /// Opaque mid grey, as contracts write it.
    pub open spec fn spec_gray() -> Color {
        Color { r: 130, g: 130, b: 130, a: 255 }
    }

    /// Opaque black, as contracts write it.
    pub open spec fn spec_black() -> Color {
        Color { r: 0, g: 0, b: 0, a: 255 }
    }

    /// Opaque mid grey: the colour that the canvas is cleared to before
    /// the cells of a frame are drawn.
    #[verifier::when_used_as_spec(spec_gray)]
    pub fn gray() -> (color: Color)
        ensures
            color == Color::spec_gray(),
    {
        Color { r: 130, g: 130, b: 130, a: 255 }
    }

    /// Opaque black.
    #[verifier::when_used_as_spec(spec_black)]
    pub fn black() -> (color: Color)
        ensures
            color == Color::spec_black(),
    {
        Color { r: 0, g: 0, b: 0, a: 255 }
    }
}

/// A filled square to draw for one cell.
#[derive(Clone, Copy, Debug, PartialEq, Eq, Structural)]
pub struct CellRect {
    /// Units from the left edge of the window to that of the square.
    pub x: u128,
    /// Units from the top edge of the window to that of the square.
    pub y: u128,
    /// Side of the square in units.
    pub side: u128,
    /// Fill colour.
    pub color: Color,
}

impl CellRect {
    /// This square is the cell in column `x` and row `y` of `layout`,
    /// filled with `color`.
    pub open spec fn shows(self, layout: Layout, x: int, y: int, color: Color) -> bool {
        &&& self.x == layout.cell_x(x)
        &&& self.y == layout.cell_y(y)
        &&& self.side == layout.cell_side()
        &&& self.color == color
    }
}

/// Everything to draw for one frame, in drawing order.
pub struct Frame {
    /// The canvas is cleared to this colour first.
    pub background: Color,
    /// Then the squares are drawn, one per cell of the grid.
    pub cells: Vec<CellRect>,
}

/// A populated cell of a sparse grid, with the colour it is drawn in.
#[derive(Clone, Copy, Debug, PartialEq, Eq, Structural)]
pub struct PopulatedCell {
    /// Column of the cell.
    pub x: usize,
    /// Row of the cell.
    pub y: usize,
    /// Colour of the cell.
    pub color: Color,
}

/// Whether `colors` holds one row per row of the grid and one colour per
/// column in each.
pub open spec fn grid_shaped(colors: Seq<Vec<Color>>, layout: Layout) -> bool {
    &&& colors.len() == layout.rows
    &&& forall|y: int| 0 <= y < colors.len() ==> (#[trigger] colors[y])@.len() == layout.cols
}

/// Place of the cell in column `x` and row `y` in a frame drawn row by row.
pub open spec fn dense_index(layout: Layout, x: int, y: int) -> int {
    y * layout.cols + x
}

/// Whether `cells` draws the cells of the first `rows` rows of the grid
/// and the first `cols` cells of the row after them, each in its place
/// and in the colour that `colors` gives for it.
pub open spec fn draws_rows(
    cells: Seq<CellRect>,
    layout: Layout,
    colors: Seq<Vec<Color>>,
    rows: int,
    cols: int,
) -> bool {
    forall|x: int, y: int|
        0 <= x < layout.cols && (0 <= y < rows || (y == rows && x < cols)) ==> {
            let rect = cells[#[trigger] dense_index(layout, x, y)];
            rect.shows(layout, x, y, colors[y]@[x])
        }
}

/// Whether `cells` draws every cell of the grid once, row by row, each
/// in its place and in its colour.
pub open spec fn is_dense_frame(
    cells: Seq<CellRect>,
    layout: Layout,
    colors: Seq<Vec<Color>>,
) -> bool {
    &&& cells.len() == layout.cell_count()
    &&& draws_rows(cells, layout, colors, layout.rows as int, 0)
}

/// The colours of the populated positions (column, row). Where a position
/// is listed more than once, the entry listed last counts.
pub open spec fn painted(populated: Seq<PopulatedCell>) -> Map<(int, int), Color>
    decreases populated.len(),
{
    if populated.len() == 0 {
        Map::empty()
    } else {
        let cell = populated.last();
        painted(populated.drop_last()).insert((cell.x as int, cell.y as int), cell.color)
    }
}

/// The colour in which column `x` of row `y` is drawn: that of the
/// populated cell there, or the default colour where there is none.
pub open spec fn color_at(
    populated: Seq<PopulatedCell>,
    x: int,
    y: int,
    default_color: Color,
) -> Color {
    if painted(populated).dom().contains((x, y)) {
        painted(populated)[(x, y)]
    } else {
        default_color
    }
}

/// Place of the cell in column `x` and row `y` in a frame drawn column by
/// column.
pub open spec fn sparse_index(layout: Layout, x: int, y: int) -> int {
    x * layout.rows + y
}

/// Whether `cells` draws the cells of the first `cols` columns of the
/// bounding box and the first `rows` cells of the column after them, each
/// in its place, the populated ones in their colour and the others in the
/// default colour.
pub open spec fn draws_columns(
    cells: Seq<CellRect>,
    layout: Layout,
    populated: Seq<PopulatedCell>,
    default_color: Color,
    cols: int,
    rows: int,
) -> bool {
    forall|x: int, y: int|
        0 <= y < layout.rows && (0 <= x < cols || (x == cols && y < rows)) ==> {
            let rect = cells[#[trigger] sparse_index(layout, x, y)];
            rect.shows(layout, x, y, color_at(populated, x, y, default_color))
        }
}

/// Whether `cells` draws every cell of the bounding box once, column by
/// column, each in its place, the populated ones in their colour and the
/// others in the default colour.
pub open spec fn is_sparse_frame(
    cells: Seq<CellRect>,
    layout: Layout,
    populated: Seq<PopulatedCell>,
    default_color: Color,
) -> bool {
    &&& cells.len() == layout.cell_count()
    &&& draws_columns(cells, layout, populated, default_color, layout.cols as int, 0)
}

/// In a grid that is stored line by line, the cells of an earlier line come
/// before those of a later one, and each has a place of its own.
proof fn lemma_line_order(line: int, within: int, length: int, lines: int)
    requires
        0 <= within < length,
        0 <= line < lines,
    ensures
        0 <= line * length + within < lines * length,
        0 <= line * length <= lines * length,
        (line + 1) * length == line * length + length,
{
    assert(0 <= line * length && (line + 1) * length <= lines * length && (line + 1) * length
        == line * length + length) by (nonlinear_arith)
        requires
            0 < length,
            0 <= line < lines,
    ;
}

/// Two cells of a grid that is stored line by line share a place only if
/// they are the same cell.
proof fn lemma_line_places_differ(
    line_a: int,
    within_a: int,
    line_b: int,
    within_b: int,
    length: int,
)
    requires
        0 <= within_a < length,
        0 <= within_b < length,
        0 <= line_a,
        0 <= line_b,
        line_a * length + within_a == line_b * length + within_b,
    ensures
        line_a == line_b,
        within_a == within_b,
{
    if line_a < line_b {
        lemma_line_order(line_a, within_a, length, line_b);
        lemma_line_order(line_b, within_b, length, line_b + 1);
    } else if line_b < line_a {
        lemma_line_order(line_b, within_b, length, line_a);
        lemma_line_order(line_a, within_a, length, line_a + 1);
    }
}

/// Whether `colors` has the shape of the grid of `geometry`.
fn has_grid_shape(geometry: &Geometry, colors: &Vec<Vec<Color>>) -> (shaped: bool)
    ensures
        shaped <==> grid_shaped(colors@, geometry@),
{
    let (cols, rows) = geometry.grid_dimensions();
    if colors.len() != rows {
        return false;
    }
    let mut y: usize = 0;
    while y < colors.len()
        invariant
            cols == geometry@.cols,
            y <= colors@.len(),
            forall|k: int| 0 <= k < y ==> (#[trigger] colors@[k])@.len() == cols,
        decreases colors@.len() - y,
    {
        if colors[y].len() != cols {
            return false;
        }
        y += 1;
    }
    true
}

/// Lays out the frame of a dense grid: every cell of the grid is drawn
/// once, row by row, in the colour that `colors` gives for it
/// (`colors[y][x]` for column `x` of row `y`).
///
/// There is a frame exactly if `colors` has the shape of the grid.
pub fn dense_frame(geometry: &Geometry, colors: &Vec<Vec<Color>>) -> (frame: Option<Frame>)
    ensures
        frame.is_some() <==> grid_shaped(colors@, geometry@),
        match frame {
            Some(frame) => {
                &&& frame.background == Color::gray()
                &&& is_dense_frame(frame.cells@, geometry@, colors@)
                &&& frame.cells@.len() == geometry@.cols * geometry@.rows
            },
            None => true,
        },
{
    let ghost layout = geometry@;
    if !has_grid_shape(geometry, colors) {
        return None;
    }
    let (cols, rows) = geometry.grid_dimensions();
    let side = geometry.cell_side();
    let mut cells: Vec<CellRect> = Vec::new();
    let mut y: usize = 0;
    while y < rows
        invariant
            layout == geometry@,
            layout.valid(),
            cols == layout.cols,
            rows == layout.rows,
            side == layout.cell_side(),
            grid_shaped(colors@, layout),
            y <= rows,
            cells@.len() == y * cols,
            draws_rows(cells@, layout, colors@, y as int, 0),
        decreases rows - y,
    {
        let mut x: usize = 0;
        while x < cols
            invariant
                layout == geometry@,
                layout.valid(),
                cols == layout.cols,
                rows == layout.rows,
                side == layout.cell_side(),
                grid_shaped(colors@, layout),
                y < rows,
                x <= cols,
                cells@.len() == y * cols + x,
                draws_rows(cells@, layout, colors@, y as int, x as int),
            decreases cols - x,
        {
            let position = geometry.cell_position(x, y);
            let color = colors[y][x];
            let ghost before = cells@;
            cells.push(CellRect { x: position.0, y: position.1, side, color });
            proof {
                assert forall|i: int, j: int|
                    0 <= i < cols && (0 <= j < y || (j == y && i < x)) implies ({
                    let place = #[trigger] dense_index(layout, i, j);
                    cells@[place] == before[place]
                }) by {
                    if j < y {
                        lemma_line_order(j, i, cols as int, y as int);
                    }
                }
            }
            x += 1;
        }
        proof {
            lemma_line_order(y as int, 0, cols as int, rows as int);
        }
        y += 1;
    }
    proof {
        assert(rows * cols == layout.cols * layout.rows) by (nonlinear_arith)
            requires
                cols == layout.cols,
                rows == layout.rows,
        ;
    }
    Some(Frame { background: Color::gray(), cells })
}

/// The squares of the bounding box, column by column, all in `color`.
fn blank_cells(geometry: &Geometry, color: Color) -> (cells: Vec<CellRect>)
    ensures
        is_sparse_frame(cells@, geometry@, Seq::empty(), color),
        geometry@.valid(),
{
    let ghost layout = geometry@;
    let ghost nothing = Seq::<PopulatedCell>::empty();
    let (cols, rows) = geometry.grid_dimensions();
    let side = geometry.cell_side();
    let mut cells: Vec<CellRect> = Vec::new();
    let mut x: usize = 0;
    while x < cols
        invariant
            layout == geometry@,
            layout.valid(),
            cols == layout.cols,
            rows == layout.rows,
            side == layout.cell_side(),
            nothing == Seq::<PopulatedCell>::empty(),
            x <= cols,
            cells@.len() == x * rows,
            draws_columns(cells@, layout, nothing, color, x as int, 0),
        decreases cols - x,
    {
        let mut y: usize = 0;
        while y < rows
            invariant
                layout == geometry@,
                layout.valid(),
                cols == layout.cols,
                rows == layout.rows,
                side == layout.cell_side(),
                nothing == Seq::<PopulatedCell>::empty(),
                x < cols,
                y <= rows,
                cells@.len() == x * rows + y,
                draws_columns(cells@, layout, nothing, color, x as int, y as int),
            decreases rows - y,
        {
            let position = geometry.cell_position(x, y);
            let ghost before = cells@;
            cells.push(CellRect { x: position.0, y: position.1, side, color });
            proof {
                assert forall|i: int, j: int|
                    0 <= j < rows && (0 <= i < x || (i == x && j < y)) implies ({
                    let place = #[trigger] sparse_index(layout, i, j);
                    cells@[place] == before[place]
                }) by {
                    if i < x {
                        lemma_line_order(i, j, rows as int, x as int);
                    }
                }
            }
            y += 1;
        }
        proof {
            lemma_line_order(x as int, 0, rows as int, cols as int);
        }
        x += 1;
    }
    proof {
        assert(cols * rows == layout.cols * layout.rows) by (nonlinear_arith)
            requires
                cols == layout.cols,
                rows == layout.rows,
        ;
    }
    cells
}

/// Painting one more populated cell changes the square at its place, if
/// it lies in the bounding box, and no other.
proof fn lemma_paint_one(
    before: Seq<CellRect>,
    after: Seq<CellRect>,
    layout: Layout,
    populated: Seq<PopulatedCell>,
    default_color: Color,
)
    requires
        layout.valid(),
        populated.len() > 0,
        is_sparse_frame(before, layout, populated.drop_last(), default_color),
        ({
            let cell = populated.last();
            let place = sparse_index(layout, cell.x as int, cell.y as int);
            if cell.x < layout.cols && cell.y < layout.rows {
                after == before.update(place, CellRect { color: cell.color, ..before[place] })
            } else {
                after == before
            }
        }),
    ensures
        is_sparse_frame(after, layout, populated, default_color),
{
    let cell = populated.last();
    let place = sparse_index(layout, cell.x as int, cell.y as int);
    if cell.x < layout.cols && cell.y < layout.rows {
        lemma_line_order(cell.x as int, cell.y as int, layout.rows as int, layout.cols as int);
    }
    assert forall|x: int, y: int| 0 <= x < layout.cols && 0 <= y < layout.rows implies ({
        let rect = after[#[trigger] sparse_index(layout, x, y)];
        rect.shows(layout, x, y, color_at(populated, x, y, default_color))
    }) by {
        lemma_line_order(x, y, layout.rows as int, layout.cols as int);
        if cell.x < layout.cols && cell.y < layout.rows && sparse_index(layout, x, y) == place {
            lemma_line_places_differ(x, y, cell.x as int, cell.y as int, layout.rows as int);
        }
    }
}

/// Lays out the frame of a sparse grid: every cell of the bounding box
/// that `geometry` was made for is drawn once, column by column. A cell
/// that `populated` lists is drawn in its colour, every other cell in
/// `default_color`. Populated cells outside the bounding box are not
/// drawn.
pub fn sparse_frame(
    geometry: &Geometry,
    populated: &Vec<PopulatedCell>,
    default_color: Color,
) -> (frame: Frame)
    ensures
        frame.background == Color::gray(),
        is_sparse_frame(frame.cells@, geometry@, populated@, default_color),
        frame.cells@.len() == geometry@.cols * geometry@.rows,
{
    let ghost layout = geometry@;
    let (cols, rows) = geometry.grid_dimensions();
    let mut cells = blank_cells(geometry, default_color);
    let mut k: usize = 0;
    while k < populated.len()
        invariant
            layout == geometry@,
            layout.valid(),
            cols == layout.cols,
            rows == layout.rows,
            k <= populated@.len(),
            is_sparse_frame(cells@, layout, populated@.take(k as int), default_color),
        decreases populated@.len() - k,
    {
        let cell = populated[k];
        let ghost before = cells@;
        if cell.x < cols && cell.y < rows {
            proof {
                assert(cells@.len() == cells.len());
                lemma_line_order(cell.x as int, cell.y as int, rows as int, cols as int);
                assert(cols * rows == layout.cols * layout.rows) by (nonlinear_arith)
                    requires
                        cols == layout.cols,
                        rows == layout.rows,
                ;
            }
            let place = cell.x * rows + cell.y;
            let mut rect = cells[place];
            rect.color = cell.color;
            cells.set(place, rect);
        }
        proof {
            let next = populated@.take(k + 1);
            assert(next.drop_last() =~= populated@.take(k as int));
            lemma_paint_one(before, cells@, layout, next, default_color);
        }
        k += 1;
    }
    proof {
        assert(populated@.take(populated@.len() as int) =~= populated@);
    }
    Frame { background: Color::gray(), cells }
}

} // verus!
