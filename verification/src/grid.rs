//! The occupancy grid of a level and the line configuration it is built from.

use vstd::prelude::*;

verus! {

/// Number of tile columns.
pub const GRID_WIDTH: usize = 32;

/// Number of tile rows.
pub const GRID_HEIGHT: usize = 18;

/// One line of tiles: `(index, start, end)` with `end` exclusive.
pub type Line = (usize, usize, usize);

/// Occupancy of every tile, row by row: `grid[row][column]`.
pub type Grid = [[bool; GRID_WIDTH]; GRID_HEIGHT];

/// A level's geometry: vertical lines `(column, start_row, end_row)` and horizontal
/// lines `(row, start_column, end_column)`, the end exclusive in both.
#[derive(Clone)]
pub struct GridConfig {
    pub vertical_lines: Vec<Line>,
    pub horizontal_lines: Vec<Line>,
}

/// The tile `(cx, cy)` lies on the vertical line.
pub open spec fn vertical_covers(line: Line, cx: int, cy: int) -> bool {
    cx == line.0 && line.1 <= cy < line.2
}

/// The tile `(cx, cy)` lies on the horizontal line.
pub open spec fn horizontal_covers(line: Line, cx: int, cy: int) -> bool {
    cy == line.0 && line.1 <= cx < line.2
}

/// A vertical line is empty or lies inside the grid.
pub open spec fn vertical_fits(line: Line) -> bool {
    line.1 < line.2 ==> line.0 < GRID_WIDTH && line.2 <= GRID_HEIGHT
}

/// A horizontal line is empty or lies inside the grid.
pub open spec fn horizontal_fits(line: Line) -> bool {
    line.1 < line.2 ==> line.0 < GRID_HEIGHT && line.2 <= GRID_WIDTH
}

/// One of the first `n` vertical lines covers the tile.
pub open spec fn any_vertical(lines: Seq<Line>, n: int, cx: int, cy: int) -> bool {
    exists|k: int| 0 <= k < n && vertical_covers(#[trigger] lines[k], cx, cy)
}

/// One of the first `n` horizontal lines covers the tile.
pub open spec fn any_horizontal(lines: Seq<Line>, n: int, cx: int, cy: int) -> bool {
    exists|k: int| 0 <= k < n && horizontal_covers(#[trigger] lines[k], cx, cy)
}

/// The tile `(cx, cy)` is one of the grid's.
pub open spec fn in_grid(cx: int, cy: int) -> bool {
    0 <= cx < GRID_WIDTH && 0 <= cy < GRID_HEIGHT
}

/// The tile `(cx, cy)` is occupied; every tile outside the grid is free.
pub open spec fn is_occupied(grid: Grid, cx: int, cy: int) -> bool {
    in_grid(cx, cy) && grid[cy][cx]
}

/// Tells whether the tile `(cell_x, cell_y)` is occupied. Tiles outside the grid are
/// free.
pub fn is_cell_occupied(grid: &Grid, cell_x: i64, cell_y: i64) -> (occupied: bool)
    ensures
        occupied == is_occupied(*grid, cell_x as int, cell_y as int),
{
    if 0 <= cell_x && cell_x < GRID_WIDTH as i64 && 0 <= cell_y && cell_y < GRID_HEIGHT as i64 {
        grid[cell_y as usize][cell_x as usize]
    } else {
        false
    }
}

impl GridConfig {
    /// Some line of the configuration covers the tile `(cx, cy)`.
    pub open spec fn covers(&self, cx: int, cy: int) -> bool {
        any_vertical(self.vertical_lines@, self.vertical_lines@.len() as int, cx, cy)
            || any_horizontal(
            self.horizontal_lines@,
            self.horizontal_lines@.len() as int,
            cx,
            cy,
        )
    }

    /// Every line of the configuration is empty or lies inside the grid.
    pub open spec fn fits(&self) -> bool {
        &&& forall|k: int|
            0 <= k < self.vertical_lines@.len() ==> vertical_fits(#[trigger] self.vertical_lines@[k])
        &&& forall|k: int|
            0 <= k < self.horizontal_lines@.len() ==> horizontal_fits(
                #[trigger] self.horizontal_lines@[k],
            )
    }

    /// Decides whether the configuration can be turned into a grid.
    pub fn is_valid(&self) -> (ok: bool)
        ensures
            ok == self.fits(),
    {
        let mut i: usize = 0;
        while i < self.vertical_lines.len()
            invariant
                i <= self.vertical_lines@.len(),
                forall|k: int| 0 <= k < i ==> vertical_fits(#[trigger] self.vertical_lines@[k]),
            decreases self.vertical_lines@.len() - i,
        {
            let line = self.vertical_lines[i];
            if line.1 < line.2 && !(line.0 < GRID_WIDTH && line.2 <= GRID_HEIGHT) {
                assert(!vertical_fits(self.vertical_lines@[i as int]));
                return false;
            }
            i += 1;
        }
        let mut j: usize = 0;
        while j < self.horizontal_lines.len()
            invariant
                j <= self.horizontal_lines@.len(),
                forall|k: int|
                    0 <= k < j ==> horizontal_fits(#[trigger] self.horizontal_lines@[k]),
            decreases self.horizontal_lines@.len() - j,
        {
            let line = self.horizontal_lines[j];
            if line.1 < line.2 && !(line.0 < GRID_HEIGHT && line.2 <= GRID_WIDTH) {
                assert(!horizontal_fits(self.horizontal_lines@[j as int]));
                return false;
            }
            j += 1;
        }
        true
    }
}

/// The first level: walls two tiles thick on both sides, a ceiling and a floor with two
/// gaps each, and four platforms between them.
pub fn level_one() -> (config: GridConfig)
    ensures
        config.fits(),
        config.vertical_lines@ == seq![
            (0usize, 0usize, 18usize),
            (1usize, 0usize, 18usize),
            (30usize, 0usize, 18usize),
            (31usize, 0usize, 18usize),
        ],
        config.horizontal_lines@ == seq![
            (0usize, 1usize, 8usize),
            (0usize, 12usize, 20usize),
            (0usize, 24usize, 32usize),
            (5usize, 5usize, 10usize),
            (5usize, 22usize, 27usize),
            (9usize, 5usize, 27usize),
            (13usize, 1usize, 11usize),
            (13usize, 21usize, 32usize),
            (17usize, 1usize, 8usize),
            (17usize, 12usize, 20usize),
            (17usize, 24usize, 32usize),
        ],
{
    let mut vertical_lines: Vec<Line> = Vec::new();
    vertical_lines.push((0, 0, GRID_HEIGHT));
    vertical_lines.push((1, 0, GRID_HEIGHT));
    vertical_lines.push((GRID_WIDTH - 2, 0, GRID_HEIGHT));
    vertical_lines.push((GRID_WIDTH - 1, 0, GRID_HEIGHT));
    let mut horizontal_lines: Vec<Line> = Vec::new();
    horizontal_lines.push((0, 1, 8));
    horizontal_lines.push((0, 12, 20));
    horizontal_lines.push((0, 24, 32));
    horizontal_lines.push((5, 5, 10));
    horizontal_lines.push((5, 22, 27));
    horizontal_lines.push((9, 5, 27));
    horizontal_lines.push((13, 1, 11));
    horizontal_lines.push((13, 21, 32));
    horizontal_lines.push((17, 1, 8));
    horizontal_lines.push((17, 12, 20));
    horizontal_lines.push((17, 24, 32));
    GridConfig { vertical_lines, horizontal_lines }
}

/// Builds the grid of a configuration: a tile is occupied exactly if a line covers it.
#[verifier::loop_isolation(false)]
pub fn create_grid(config: &GridConfig) -> (grid: Grid)
    requires
        config.fits(),
    ensures
        forall|cx: int, cy: int| #[trigger] is_occupied(grid, cx, cy) == config.covers(cx, cy),
{
    let mut grid: Grid = [[false; GRID_WIDTH]; GRID_HEIGHT];
    let ghost verticals = config.vertical_lines@;
    let ghost horizontals = config.horizontal_lines@;
    let mut i: usize = 0;
    while i < config.vertical_lines.len()
        invariant
            i <= verticals.len(),
            forall|cx: int, cy: int| #[trigger]
                is_occupied(grid, cx, cy) == (in_grid(cx, cy) && any_vertical(
                    verticals,
                    i as int,
                    cx,
                    cy,
                )),
        decreases verticals.len() - i,
    {
        let (column, start, end) = config.vertical_lines[i];
        assert(vertical_fits(verticals[i as int]));
        let mut y: usize = start;
        while y < end
            invariant
                start <= y,
                start <= end ==> y <= end,
                start > end ==> y == start,
                forall|cx: int, cy: int| #[trigger]
                    is_occupied(grid, cx, cy) == (in_grid(cx, cy) && (any_vertical(
                        verticals,
                        i as int,
                        cx,
                        cy,
                    ) || (cx == column && start <= cy < y))),
            decreases end - y,
        {
            let ghost before = grid;
            grid[y][column] = true;
            assert forall|cx: int, cy: int| #[trigger]
                is_occupied(grid, cx, cy) == (is_occupied(before, cx, cy) || (cx == column && cy
                    == y)) by {}
            y += 1;
        }
        assert forall|cx: int, cy: int| #[trigger]
            is_occupied(grid, cx, cy) == (in_grid(cx, cy) && any_vertical(
                verticals,
                i + 1,
                cx,
                cy,
            )) by {
            if any_vertical(verticals, i + 1, cx, cy) {
                let k = choose|k: int|
                    0 <= k < i + 1 && vertical_covers(#[trigger] verticals[k], cx, cy);
                if k < i {
                    assert(any_vertical(verticals, i as int, cx, cy));
                }
            }
            if cx == column && start <= cy < y {
                assert(vertical_covers(verticals[i as int], cx, cy));
            }
        }
        i += 1;
    }
    let mut j: usize = 0;
    while j < config.horizontal_lines.len()
        invariant
            j <= horizontals.len(),
            forall|cx: int, cy: int| #[trigger]
                is_occupied(grid, cx, cy) == (in_grid(cx, cy) && (any_vertical(
                    verticals,
                    verticals.len() as int,
                    cx,
                    cy,
                ) || any_horizontal(horizontals, j as int, cx, cy))),
        decreases horizontals.len() - j,
    {
        let (row, start, end) = config.horizontal_lines[j];
        assert(horizontal_fits(horizontals[j as int]));
        let mut x: usize = start;
        while x < end
            invariant
                start <= x,
                start <= end ==> x <= end,
                start > end ==> x == start,
                forall|cx: int, cy: int| #[trigger]
                    is_occupied(grid, cx, cy) == (in_grid(cx, cy) && (any_vertical(
                        verticals,
                        verticals.len() as int,
                        cx,
                        cy,
                    ) || any_horizontal(horizontals, j as int, cx, cy) || (cy == row && start
                        <= cx < x))),
            decreases end - x,
        {
            let ghost before = grid;
            grid[row][x] = true;
            assert forall|cx: int, cy: int| #[trigger]
                is_occupied(grid, cx, cy) == (is_occupied(before, cx, cy) || (cy == row && cx
                    == x)) by {}
            x += 1;
        }
        assert forall|cx: int, cy: int| #[trigger]
            is_occupied(grid, cx, cy) == (in_grid(cx, cy) && (any_vertical(
                verticals,
                verticals.len() as int,
                cx,
                cy,
            ) || any_horizontal(horizontals, j + 1, cx, cy))) by {
            if any_horizontal(horizontals, j + 1, cx, cy) {
                let k = choose|k: int|
                    0 <= k < j + 1 && horizontal_covers(#[trigger] horizontals[k], cx, cy);
                if k < j {
                    assert(any_horizontal(horizontals, j as int, cx, cy));
                }
            }
            if cy == row && start <= cx < x {
                assert(horizontal_covers(horizontals[j as int], cx, cy));
            }
        }
        j += 1;
    }
    assert forall|cx: int, cy: int| #[trigger]
        is_occupied(grid, cx, cy) == config.covers(cx, cy) by {
        if any_vertical(verticals, verticals.len() as int, cx, cy) {
            let k = choose|k: int|
                0 <= k < verticals.len() && vertical_covers(#[trigger] verticals[k], cx, cy);
            assert(vertical_fits(verticals[k]));
        }
        if any_horizontal(horizontals, horizontals.len() as int, cx, cy) {
            let k = choose|k: int|
                0 <= k < horizontals.len() && horizontal_covers(#[trigger] horizontals[k], cx, cy);
            assert(horizontal_fits(horizontals[k]));
        }
    }
    grid
}

} // verus!
