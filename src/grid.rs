use vstd::prelude::*;
use crate::geometry::MAX_SIDE;
use vstd::arithmetic::div_mod::lemma_fundamental_div_mod_converse;

verus! {

/// Width of a brick in arena units.
pub const CELL_WIDTH: usize = 8;

/// Row of the arena that holds the first row of bricks.
pub const FIRST_ROW: usize = 4;

/// The colours a brick can have.
#[derive(Clone, Copy, Debug, PartialEq, Eq, Structural)]
pub enum CellColor {
    Red,
    Green,
    Blue,
    Magenta,
}

/// A brick: its top-left position in arena units and its colour.
#[derive(Clone, Copy, Debug)]
pub struct Cell {
    pub pos: (usize, usize),
    pub color: CellColor,
}

impl Cell {
    /// A brick at `(x, y)`.
    pub fn new(x: usize, y: usize, color: CellColor) -> (r: Cell)
        ensures
            r.pos == (x, y),
            r.color == color,
    {
        Cell { pos: (x, y), color }
    }

    /// The brick's top-left position.
    pub fn get_pos(&self) -> (r: (usize, usize))
        ensures
            r == self.pos,
    {
        self.pos
    }

    /// The brick's colour.
    pub fn get_color(&self) -> (r: CellColor)
        ensures
            r == self.color,
    {
        self.color
    }

    /// Width of every brick.
    pub fn get_width() -> (r: usize)
        ensures
            r == CELL_WIDTH,
    {
        CELL_WIDTH
    }

    /// The brick lies where terminal coordinates can address it.
    pub open spec fn in_bounds(self) -> bool {
        self.pos.0 <= MAX_SIDE && self.pos.1 <= MAX_SIDE
    }
}

/// Number of brick columns in an arena `w` units wide: the first and last
/// brick-wide columns stay free.
pub open spec fn grid_cols(w: int) -> int {
    w / CELL_WIDTH as int - 2
}

/// Number of brick rows in an arena `h` units high.
pub open spec fn grid_rows(h: int) -> int {
    h / 3
}

/// Position of the `i`-th brick of a grid with `cols` columns, laid out row
/// by row from `(CELL_WIDTH, FIRST_ROW)`.
pub open spec fn grid_pos(i: int, cols: int) -> (int, int) {
    (CELL_WIDTH + (i % cols) * CELL_WIDTH, FIRST_ROW + i / cols)
}

/// The colour that a draw from `[0, 5)` gives a brick: 0 red, 1 green, 2 blue,
/// 4 magenta, and any other value red.
pub open spec fn draw_color(c: int) -> CellColor {
    if c == 1 {
        CellColor::Green
    } else if c == 2 {
        CellColor::Blue
    } else if c == 4 {
        CellColor::Magenta
    } else {
        CellColor::Red
    }
}

/// Relies on rand::thread_rng and rand::Rng::gen_range(low, high), which
/// returns a value in `[low, high)` and panics unless `low < high`.
#[verifier::external_body]
fn random_in(low: u32, high: u32) -> (r: u32)
    requires
        low < high,
    ensures
        low <= r < high,
{
    rand::Rng::gen_range(&mut rand::thread_rng(), low, high)
}

/// The colour of a brick for the draw `c`.
pub fn color_of_draw(c: u32) -> (r: CellColor)
    ensures
        r == draw_color(c as int),
{
    match c {
        1 => CellColor::Green,
        2 => CellColor::Blue,
        4 => CellColor::Magenta,
        _ => CellColor::Red,
    }
}

/// A fresh brick grid for a `game_size` arena: `grid_cols` columns by
/// `grid_rows` rows, row by row, each brick of a randomly drawn colour.
pub fn generate_cell_grid(game_size: (usize, usize)) -> (r: Vec<Cell>)
    requires
        2 * CELL_WIDTH <= game_size.0 <= MAX_SIDE,
        game_size.1 <= MAX_SIDE,
    ensures
        r@.len() == grid_cols(game_size.0 as int) * grid_rows(game_size.1 as int),
        forall|i: int|
            0 <= i < r@.len() ==> (r@[i].pos.0 as int, r@[i].pos.1 as int) == grid_pos(
                i,
                grid_cols(game_size.0 as int),
            ),
        forall|i: int| 0 <= i < r@.len() ==> #[trigger] r@[i].in_bounds(),
{
    let cols = game_size.0 / Cell::get_width() - 2;
    let rows = game_size.1 / 3;
    proof {
        let w = game_size.0 as int;
        assert((w / 8 - 2) * 8 <= w) by (nonlinear_arith)
            requires
                w >= 16,
        ;
    }
    let mut cells: Vec<Cell> = Vec::new();
    let mut cy: usize = 0;
    while cy < rows
        invariant
            cols == grid_cols(game_size.0 as int),
            rows == grid_rows(game_size.1 as int),
            cols * CELL_WIDTH <= game_size.0 <= MAX_SIDE,
            rows <= MAX_SIDE / 3,
            cy <= rows,
            cells@.len() == cy * cols,
            forall|i: int|
                0 <= i < cells@.len() ==> (cells@[i].pos.0 as int, cells@[i].pos.1 as int)
                    == grid_pos(i, cols as int),
            forall|i: int| 0 <= i < cells@.len() ==> #[trigger] cells@[i].in_bounds(),
        decreases rows - cy,
    {
        let mut cx: usize = 0;
        while cx < cols
            invariant
                cols == grid_cols(game_size.0 as int),
                rows == grid_rows(game_size.1 as int),
                cols * CELL_WIDTH <= game_size.0 <= MAX_SIDE,
                rows <= MAX_SIDE / 3,
                cy < rows,
                cx <= cols,
                cells@.len() == cy * cols + cx,
                forall|i: int|
                    0 <= i < cells@.len() ==> (cells@[i].pos.0 as int, cells@[i].pos.1 as int)
                        == grid_pos(i, cols as int),
                forall|i: int| 0 <= i < cells@.len() ==> #[trigger] cells@[i].in_bounds(),
            decreases cols - cx,
        {
            let c = random_in(0, 5);
            proof {
                lemma_fundamental_div_mod_converse(
                    cells@.len() as int,
                    cols as int,
                    cy as int,
                    cx as int,
                );
                assert(cx * CELL_WIDTH + CELL_WIDTH <= cols * CELL_WIDTH) by (nonlinear_arith)
                    requires
                        cx < cols,
                ;
            }
            let xpos = CELL_WIDTH + cx * CELL_WIDTH;
            let ypos = FIRST_ROW + cy;
            let ghost before = cells@;
            cells.push(Cell { pos: (xpos, ypos), color: color_of_draw(c) });
            assert(forall|i: int| 0 <= i < before.len() ==> cells@[i] == before[i]);
            cx = cx + 1;
        }
        proof {
            assert(cy * cols + cols == (cy + 1) * cols) by (nonlinear_arith);
        }
        cy = cy + 1;
    }
    proof {
        assert(cy * cols == cols * cy) by (nonlinear_arith);
    }
    cells
}

} // verus!
