use vstd::prelude::*;
use crate::direction::Direction2;
use crate::grid::{columns_hold, grid_get, grid_height, in_bounds, TileGrid};
use crate::interaction::{high, low, no_quarters, span, InteractionShape, TileInteraction};
use crate::mouse::Mouse;
use crate::texture::Texture;
use crate::tile::{Road, Tile};
use crate::vertex::{extend_tris, Vertex};

verus! {

/// The marks of a row, place by place: the mark of the place `offset` steps
/// east of column `x_low` in row `y`.
pub open spec fn row_parts(
    interaction: TileInteraction,
    tiles: Seq<Seq<Tile>>,
    x_low: int,
    y: int,
) -> spec_fn(int) -> Seq<Vertex> {
    |offset: int|
        interaction.select_tris(tiles[x_low + offset][y], [(x_low + offset) as u16, y as u16])
}

/// The marks of a column, place by place: the mark of the place `offset`
/// steps south of row `y_low` in column `x`.
pub open spec fn column_parts(
    interaction: TileInteraction,
    tiles: Seq<Seq<Tile>>,
    x: int,
    y_low: int,
) -> spec_fn(int) -> Seq<Vertex> {
    |offset: int|
        interaction.select_tris(tiles[x][y_low + offset], [x as u16, (y_low + offset) as u16])
}

/// The marks of the `count` places of row `y` that begin at column `x_low`,
/// from west to east.
pub open spec fn row_marks(
    interaction: TileInteraction,
    tiles: Seq<Seq<Tile>>,
    x_low: int,
    y: int,
    count: nat,
) -> Seq<Vertex> {
    Seq::new(count, row_parts(interaction, tiles, x_low, y)).flatten()
}

/// The marks of the `count` places of column `x` that begin at row `y_low`,
/// from north to south.
pub open spec fn column_marks(
    interaction: TileInteraction,
    tiles: Seq<Seq<Tile>>,
    x: int,
    y_low: int,
    count: nat,
) -> Seq<Vertex> {
    Seq::new(count, column_parts(interaction, tiles, x, y_low)).flatten()
}

/// The marks of a rectangle, row by row: the marks of the row `offset` steps
/// south of row `y_low`.
pub open spec fn rectangle_parts(
    interaction: TileInteraction,
    tiles: Seq<Seq<Tile>>,
    x_low: int,
    width: nat,
    y_low: int,
) -> spec_fn(int) -> Seq<Vertex> {
    |offset: int| row_marks(interaction, tiles, x_low, y_low + offset, width)
}

/// The marks of the rectangle of `width` columns and `height` rows whose
/// north-west corner is the place in column `x_low` and row `y_low`: row
/// after row, each from west to east.
pub open spec fn rectangle_marks(
    interaction: TileInteraction,
    tiles: Seq<Seq<Tile>>,
    x_low: int,
    width: nat,
    y_low: int,
    height: nat,
) -> Seq<Vertex> {
    Seq::new(height, rectangle_parts(interaction, tiles, x_low, width, y_low)).flatten()
}

/// Joining one part more appends that part.
pub proof fn lemma_flatten_step<A>(parts: spec_fn(int) -> Seq<A>, count: nat)
    ensures
        Seq::new(count + 1, parts).flatten() == Seq::new(count, parts).flatten() + parts(
            count as int,
        ),
{
    assert(Seq::new(count + 1, parts) =~= Seq::new(count, parts).push(parts(count as int)));
    Seq::new(count, parts).lemma_flatten_push(parts(count as int));
}

impl InteractionShape {
    /// The triangles of the selection overlay for this tool.
    ///
    /// While the left button is held, the overlay marks the tiles that
    /// letting go would edit: a rectangle tool every tile of the rectangle
    /// that the drag spans, a line tool every tile of the line that the drag
    /// follows, and none where the drag has no length. A line tool marks each
    /// tile as the building of a road there would fare. Otherwise a dot or
    /// rectangle tool marks the tile under the pointer, and a line tool
    /// shows the plain cursor there.
    pub open spec fn select_tris(&self, tiles: Seq<Seq<Tile>>, mouse: Mouse) -> Seq<Vertex> {
        let x_low = low(mouse.click_start[0], mouse.pos[0]);
        let x_high = high(mouse.click_start[0], mouse.pos[0]);
        let y_low = low(mouse.click_start[1], mouse.pos[1]);
        let y_high = high(mouse.click_start[1], mouse.pos[1]);
        let under_pointer = tiles[mouse.pos[0] as int][mouse.pos[1] as int];
        match *self {
            InteractionShape::Dot(interaction) => interaction.select_tris(under_pointer, mouse.pos),
            InteractionShape::Rectangle(interaction) => if mouse.is_left_clicking {
                rectangle_marks(
                    interaction,
                    tiles,
                    x_low,
                    (x_high - x_low + 1) as nat,
                    y_low,
                    (y_high - y_low + 1) as nat,
                )
            } else {
                interaction.select_tris(under_pointer, mouse.pos)
            },
            InteractionShape::RoadLine(_) => if mouse.is_left_clicking {
                match mouse.line_drag_direction() {
                    Direction2::NorthSouth => if y_low < y_high {
                        column_marks(
                            TileInteraction::BuildRoad(no_quarters()),
                            tiles,
                            mouse.click_start[0] as int,
                            y_low,
                            (y_high - y_low + 1) as nat,
                        )
                    } else {
                        Seq::empty()
                    },
                    Direction2::EastWest => if x_low < x_high {
                        row_marks(
                            TileInteraction::BuildRoad(no_quarters()),
                            tiles,
                            x_low,
                            mouse.click_start[1] as int,
                            (x_high - x_low + 1) as nat,
                        )
                    } else {
                        Seq::empty()
                    },
                }
            } else {
                Texture::Select.tris(mouse.pos)
            },
        }
    }
}

/// Appends the marks of the places of row `y` from column `x_low` to column
/// `x_high`.
fn mark_row(
    out: &mut Vec<Vertex>,
    interaction: &TileInteraction,
    tiles: &TileGrid,
    x_low: usize,
    x_high: usize,
    y: usize,
)
    requires
        x_low <= x_high < tiles@.len(),
        x_high <= u16::MAX,
        y <= u16::MAX,
        forall|x: int| x_low <= x <= x_high ==> y < (#[trigger] tiles@[x]).len(),
    ensures
        final(out)@ == old(out)@ + row_marks(
            *interaction,
            tiles@,
            x_low as int,
            y as int,
            (x_high - x_low + 1) as nat,
        ),
{
    let mut x: usize = x_low;
    assert(Seq::new(0, row_parts(*interaction, tiles@, x_low as int, y as int)).flatten()
        =~= Seq::empty());
    while x <= x_high
        invariant
            x_low <= x <= x_high + 1,
            x_high < tiles@.len(),
            x_high <= u16::MAX,
            y <= u16::MAX,
            forall|x: int| x_low <= x <= x_high ==> y < (#[trigger] tiles@[x]).len(),
            out@ == old(out)@ + row_marks(
                *interaction,
                tiles@,
                x_low as int,
                y as int,
                (x - x_low) as nat,
            ),
        decreases x_high + 1 - x,
    {
        let tile = grid_get(tiles, x, y);
        let mark = interaction.generate_select_tris(&tile, [x as u16, y as u16]);
        extend_tris(out, &mark);
        proof {
            lemma_flatten_step(
                row_parts(*interaction, tiles@, x_low as int, y as int),
                (x - x_low) as nat,
            );
        }
        x += 1;
    }
}

/// Appends the marks of the places of column `x` from row `y_low` to row
/// `y_high`.
fn mark_column(
    out: &mut Vec<Vertex>,
    interaction: &TileInteraction,
    tiles: &TileGrid,
    x: usize,
    y_low: usize,
    y_high: usize,
)
    requires
        x < tiles@.len(),
        x <= u16::MAX,
        y_low <= y_high < tiles@[x as int].len(),
        y_high <= u16::MAX,
    ensures
        final(out)@ == old(out)@ + column_marks(
            *interaction,
            tiles@,
            x as int,
            y_low as int,
            (y_high - y_low + 1) as nat,
        ),
{
    let mut y: usize = y_low;
    assert(Seq::new(0, column_parts(*interaction, tiles@, x as int, y_low as int)).flatten()
        =~= Seq::empty());
    while y <= y_high
        invariant
            y_low <= y <= y_high + 1,
            x < tiles@.len(),
            x <= u16::MAX,
            y_high < tiles@[x as int].len(),
            y_high <= u16::MAX,
            out@ == old(out)@ + column_marks(
                *interaction,
                tiles@,
                x as int,
                y_low as int,
                (y - y_low) as nat,
            ),
        decreases y_high + 1 - y,
    {
        let tile = grid_get(tiles, x, y);
        let mark = interaction.generate_select_tris(&tile, [x as u16, y as u16]);
        extend_tris(out, &mark);
        proof {
            lemma_flatten_step(
                column_parts(*interaction, tiles@, x as int, y_low as int),
                (y - y_low) as nat,
            );
        }
        y += 1;
    }
}

impl InteractionShape {
    /// Builds the triangles of the selection overlay for this tool. The grid
    /// is only read.
    pub fn generate_select_tris(&self, tiles: &TileGrid, mouse: &Mouse) -> (tris: Vec<Vertex>)
        requires
            in_bounds(tiles@, mouse.pos),
            in_bounds(tiles@, mouse.click_start),
        ensures
            tris@ == self.select_tris(tiles@, *mouse),
    {
        let height = grid_height(tiles);
        let (x_low, x_high) = span(mouse.click_start[0], mouse.pos[0]);
        let (y_low, y_high) = span(mouse.click_start[1], mouse.pos[1]);
        let mut tris: Vec<Vertex> = Vec::new();
        match self {
            InteractionShape::Rectangle(interaction) if mouse.is_left_clicking => {
                let mut y: usize = y_low;
                assert(Seq::new(
                    0,
                    rectangle_parts(
                        *interaction,
                        tiles@,
                        x_low as int,
                        (x_high - x_low + 1) as nat,
                        y_low as int,
                    ),
                ).flatten() =~= Seq::empty());
                while y <= y_high
                    invariant
                        y_low <= y <= y_high + 1,
                        y_high < height,
                        y_high <= u16::MAX,
                        x_low <= x_high < tiles@.len(),
                        x_high <= u16::MAX,
                        columns_hold(tiles@, height as nat),
                        tris@ == rectangle_marks(
                            *interaction,
                            tiles@,
                            x_low as int,
                            (x_high - x_low + 1) as nat,
                            y_low as int,
                            (y - y_low) as nat,
                        ),
                    decreases y_high + 1 - y,
                {
                    mark_row(&mut tris, interaction, tiles, x_low, x_high, y);
                    proof {
                        lemma_flatten_step(
                            rectangle_parts(
                                *interaction,
                                tiles@,
                                x_low as int,
                                (x_high - x_low + 1) as nat,
                                y_low as int,
                            ),
                            (y - y_low) as nat,
                        );
                    }
                    y += 1;
                }
            },
            InteractionShape::Dot(interaction) | InteractionShape::Rectangle(interaction) => {
                let tile = grid_get(tiles, mouse.pos[0] as usize, mouse.pos[1] as usize);
                extend_tris(&mut tris, &interaction.generate_select_tris(&tile, mouse.pos));
            },
            InteractionShape::RoadLine(_) if mouse.is_left_clicking => {
                let bare: [Road; 4] = [Road::Empty;4];
                assert(bare =~= no_quarters());
                let interaction = TileInteraction::BuildRoad(bare);
                match mouse.get_line_drag_direction() {
                    Direction2::NorthSouth => {
                        let x: usize = mouse.click_start[0] as usize;
                        if y_low != y_high {
                            mark_column(&mut tris, &interaction, tiles, x, y_low, y_high);
                        }
                    },
                    Direction2::EastWest => {
                        let y: usize = mouse.click_start[1] as usize;
                        if x_low != x_high {
                            mark_row(&mut tris, &interaction, tiles, x_low, x_high, y);
                        }
                    },
                }
            },
            InteractionShape::RoadLine(_) => {
                extend_tris(&mut tris, &Texture::Select.generate_tris(mouse.pos));
            },
        }
        tris
    }
}

} // verus!
