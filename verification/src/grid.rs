use vstd::prelude::*;
use crate::tile::Tile;

verus! {

/// A rectangular grid of tiles, addressed by column and row.
///
/// The tiles lie in an `ndarray::Array2`, whose first axis runs over the
/// columns and whose second over the rows. The verifier does not look into
/// the array: all that it knows of a grid is what the functions of this file
/// that call into `ndarray` state of [`grid_tiles`], and those statements
/// are taken on trust.
#[verifier::external_body]
pub struct TileGrid {
    tiles: ndarray::Array2<Tile>,
}

/// The tiles of a grid, column by column: `grid_tiles(grid)[x][y]` is the
/// tile in column `x` and row `y`, the one that the array holds at `[[x, y]]`.
/// It is also the view of a grid, written `grid@`.
pub uninterp spec fn grid_tiles(grid: TileGrid) -> Seq<Seq<Tile>>;

impl View for TileGrid {
    type V = Seq<Seq<Tile>>;

    open spec fn view(&self) -> Seq<Seq<Tile>> {
        grid_tiles(*self)
    }
}

/// The number of rows of `tiles`: the length of its first column, and of
/// every other where the grid is rectangular.
pub open spec fn rows_of(tiles: Seq<Seq<Tile>>) -> nat {
    if tiles.len() > 0 {
        tiles[0].len()
    } else {
        0
    }
}

/// Whether the columns of `tiles` all hold `height` tiles.
pub open spec fn columns_hold(tiles: Seq<Seq<Tile>>, height: nat) -> bool {
    forall|x: int| 0 <= x < tiles.len() ==> (#[trigger] tiles[x]).len() == height
}

/// Whether `tiles` has a tile in column `pos[0]` and row `pos[1]`.
pub open spec fn in_bounds(tiles: Seq<Seq<Tile>>, pos: [u16; 2]) -> bool {
    pos[0] < tiles.len() && pos[1] < tiles[pos[0] as int].len()
}

/// Calls `ndarray::Array2::from_elem` with the shape `[width, height]`.
///
/// The array it returns has that shape and holds a copy of `tile` in every
/// place. `from_elem` panics where the number of elements, or the bytes that
/// they fill, go beyond `isize::MAX`; a tile takes fewer than sixteen bytes,
/// so with both sides at most 4096 neither happens.
#[verifier::external_body]
pub(crate) fn grid_filled(width: usize, height: usize, tile: Tile) -> (grid: TileGrid)
    requires
        width <= 4096,
        height <= 4096,
    ensures
        grid_tiles(grid) == Seq::new(
            width as nat,
            |x: int| Seq::new(height as nat, |y: int| tile),
        ),
{
    TileGrid { tiles: ndarray::Array2::from_elem([width, height], tile) }
}

/// Calls `ndarray::Array2::nrows`, the length of the first axis: the number
/// of columns of tiles.
#[verifier::external_body]
pub(crate) fn grid_width(grid: &TileGrid) -> (width: usize)
    ensures
        width == grid_tiles(*grid).len(),
{
    grid.tiles.nrows()
}

/// Calls `ndarray::Array2::ncols`, the length of the second axis: the number
/// of tiles in each column. An array's columns are all of that length, which
/// is how callers learn that a grid is rectangular.
#[verifier::external_body]
pub(crate) fn grid_height(grid: &TileGrid) -> (height: usize)
    ensures
        columns_hold(grid_tiles(*grid), height as nat),
{
    grid.tiles.ncols()
}

/// Indexes the array with `[[x, y]]` and copies the tile found there.
/// Indexing panics where `x` or `y` is not below the length of its axis.
#[verifier::external_body]
pub(crate) fn grid_get(grid: &TileGrid, x: usize, y: usize) -> (tile: Tile)
    requires
        x < grid_tiles(*grid).len(),
        y < grid_tiles(*grid)[x as int].len(),
    ensures
        tile == grid_tiles(*grid)[x as int][y as int],
{
    grid.tiles[[x, y]]
}

/// Indexes the array mutably with `[[x, y]]` and stores `tile` there; every
/// other place keeps its tile. Indexing panics where `x` or `y` is not below
/// the length of its axis.
#[verifier::external_body]
pub(crate) fn grid_set(grid: &mut TileGrid, x: usize, y: usize, tile: Tile)
    requires
        x < grid_tiles(*old(grid)).len(),
        y < grid_tiles(*old(grid))[x as int].len(),
    ensures
        grid_tiles(*final(grid)) == grid_tiles(*old(grid)).update(
            x as int,
            grid_tiles(*old(grid))[x as int].update(y as int, tile),
        ),
{
    grid.tiles[[x, y]] = tile;
}

impl TileGrid {
    /// The tile in column `x` and row `y`, if the grid reaches that far.
    pub fn tile(&self, x: u16, y: u16) -> (found: Option<Tile>)
        ensures
            found == if in_bounds(self@, [x, y]) {
                Some(self@[x as int][y as int])
            } else {
                None
            },
    {
        let height = grid_height(self);
        if (x as usize) < grid_width(self) && (y as usize) < height {
            Some(grid_get(self, x as usize, y as usize))
        } else {
            None
        }
    }
}

} // verus!
