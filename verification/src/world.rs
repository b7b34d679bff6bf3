use vstd::prelude::*;
use crate::grid::{
    columns_hold,
    grid_filled,
    grid_get,
    grid_height,
    grid_width,
    in_bounds,
    rows_of,
    TileGrid,
};
use crate::interaction::InteractionShape;
use crate::mouse::Mouse;
use crate::overlay::lemma_flatten_step;
use crate::tile::{Cover, Ground, Tile};
use crate::vertex::Vertex;

verus! {

/// The grid of tiles that the tools paint on.
pub struct World {
    pub tiles: TileGrid,
}

/// The triangles of a row, tile by tile: those of the tile in column `x` of
/// row `y`.
pub open spec fn tile_parts(tiles: Seq<Seq<Tile>>, y: int) -> spec_fn(int) -> Seq<Vertex> {
    |x: int| tiles[x][y].spec_render([x as u16, y as u16])
}

/// The triangles that draw the first `count` tiles of row `y`, from west to
/// east.
pub open spec fn row_tris(tiles: Seq<Seq<Tile>>, y: int, count: nat) -> Seq<Vertex> {
    Seq::new(count, tile_parts(tiles, y)).flatten()
}

/// The triangles of a grid, row by row: those of the first `width` tiles of
/// row `y`.
pub open spec fn row_parts(tiles: Seq<Seq<Tile>>, width: nat) -> spec_fn(int) -> Seq<Vertex> {
    |y: int| row_tris(tiles, y, width)
}

/// The triangles that draw the first `rows` rows of a grid that is `width`
/// tiles wide: row after row, each from west to east.
pub open spec fn grid_tris(tiles: Seq<Seq<Tile>>, width: nat, rows: nat) -> Seq<Vertex> {
    Seq::new(rows, row_parts(tiles, width)).flatten()
}

impl World {
    /// The number of columns of the grid.
    pub open spec fn width(&self) -> nat {
        self.tiles@.len()
    }

    /// The number of rows of the grid.
    pub open spec fn height(&self) -> nat {
        rows_of(self.tiles@)
    }

    /// Whether the grid has a tile, is rectangular, and every place of it
    /// can be named by a pair of `u16` coordinates.
    pub open spec fn wf(&self) -> bool {
        &&& 0 < self.width() <= u16::MAX
        &&& 0 < self.height() <= u16::MAX
        &&& columns_hold(self.tiles@, self.height())
    }

    /// A world of 256 by 256 tiles of bare grass.
    pub fn new() -> (world: Self)
        ensures
            world.wf(),
            world.width() == 256,
            world.height() == 256,
            world.tiles@ == Seq::new(
                256,
                |x: int|
                    Seq::new(256, |y: int| Tile { ground: Ground::Grass, cover: Cover::Empty }),
            ),
    {
        Self { tiles: grid_filled(256, 256, Tile::new()) }
    }

    /// The number of columns of the grid.
    pub fn get_width(&self) -> (width: u16)
        requires
            self.wf(),
        ensures
            width == self.width(),
    {
        grid_width(&self.tiles) as u16
    }

    /// The number of rows of the grid.
    pub fn get_height(&self) -> (height: u16)
        requires
            self.wf(),
        ensures
            height == self.height(),
    {
        grid_height(&self.tiles) as u16
    }

    /// Applies a drag of the tool `interaction` to the grid.
    pub fn interact(&mut self, interaction: &InteractionShape, mouse: &Mouse)
        requires
            in_bounds(old(self).tiles@, mouse.pos),
            in_bounds(old(self).tiles@, mouse.click_start),
        ensures
            final(self).tiles@ == interaction.apply(old(self).tiles@, *mouse),
            final(self).width() == old(self).width(),
            final(self).height() == old(self).height(),
            old(self).wf() ==> final(self).wf(),
    {
        interaction.interact(&mut self.tiles, mouse);
    }

    /// Builds the triangles that draw the world: every tile, row after row
    /// and each row from west to east, and then, unless the world is paused,
    /// the selection overlay of the tool `interaction`.
    pub fn render(&self, interaction: &InteractionShape, mouse: &Mouse, is_paused: bool) -> (data:
        Vec<Vertex>)
        requires
            self.wf(),
            !is_paused ==> in_bounds(self.tiles@, mouse.pos),
            !is_paused ==> in_bounds(self.tiles@, mouse.click_start),
        ensures
            data@ == grid_tris(self.tiles@, self.width(), self.height()) + if is_paused {
                Seq::empty()
            } else {
                interaction.select_tris(self.tiles@, *mouse)
            },
    {
        let width = grid_width(&self.tiles);
        let height = grid_height(&self.tiles);
        let mut data: Vec<Vertex> = Vec::new();
        let mut y: usize = 0;
        assert(Seq::new(0, row_parts(self.tiles@, width as nat)).flatten() =~= Seq::empty());
        while y < height
            invariant
                y <= height == self.height() <= u16::MAX,
                width == self.width() <= u16::MAX,
                columns_hold(self.tiles@, height as nat),
                data@ == grid_tris(self.tiles@, width as nat, y as nat),
            decreases height - y,
        {
            let mut x: usize = 0;
            let ghost before = data@;
            assert(Seq::new(0, tile_parts(self.tiles@, y as int)).flatten() =~= Seq::empty());
            while x < width
                invariant
                    x <= width == self.width() <= u16::MAX,
                    y < height == self.height() <= u16::MAX,
                    columns_hold(self.tiles@, height as nat),
                    data@ == before + row_tris(self.tiles@, y as int, x as nat),
                decreases width - x,
            {
                let tile = grid_get(&self.tiles, x, y);
                let mut tris = tile.render([x as u16, y as u16]);
                data.append(&mut tris);
                proof {
                    lemma_flatten_step(tile_parts(self.tiles@, y as int), x as nat);
                }
                x += 1;
            }
            proof {
                lemma_flatten_step(row_parts(self.tiles@, width as nat), y as nat);
            }
            y += 1;
        }
        if !is_paused {
            let mut overlay = interaction.generate_select_tris(&self.tiles, mouse);
            data.append(&mut overlay);
        }
        data
    }
}

} // verus!
