use vstd::prelude::*;
use crate::direction::{Direction2, Direction4};
use crate::grid::{columns_hold, grid_get, grid_height, grid_set, in_bounds, TileGrid};
use crate::mouse::Mouse;
use crate::texture::Texture;
use crate::tile::{Cover, Ground, Road, Tile};
use crate::vertex::Vertex;

verus! {

/// A road without surface on any quarter.
pub open spec fn no_quarters() -> [Road; 4] {
    [Road::Empty, Road::Empty, Road::Empty, Road::Empty]
}

/// The quarters of a road after `wanted` is laid over `existing`: a quarter
/// that already carries a surface keeps it, an empty one takes what is
/// wanted there.
pub open spec fn merged(existing: [Road; 4], wanted: [Road; 4]) -> [Road; 4] {
    [
        if existing[0] is Empty { wanted[0] } else { existing[0] },
        if existing[1] is Empty { wanted[1] } else { existing[1] },
        if existing[2] is Empty { wanted[2] } else { existing[2] },
        if existing[3] is Empty { wanted[3] } else { existing[3] },
    ]
}

/// Lays `wanted` over `existing`, filling only the quarters that are empty.
pub fn merge_quarters(existing: &mut [Road; 4], wanted: &[Road; 4])
    ensures
        *final(existing) == merged(*old(existing), *wanted),
{
    let mut x: usize = 0;
    while x < 4
        invariant
            x <= 4,
            forall|k: int| 0 <= k < x ==> existing[k] == merged(*old(existing), *wanted)[k],
            forall|k: int| x <= k < 4 ==> existing[k] == old(existing)[k],
        decreases 4 - x,
    {
        if matches!(existing[x], Road::Empty) {
            existing[x] = wanted[x];
        }
        x += 1;
    }
    assert(existing@ =~= merged(*old(existing), *wanted)@);
}

/// How the selection overlay marks a tile.
#[derive(Copy, Clone, Debug, PartialEq, Eq, Structural)]
pub enum Overlay {
    Buildable,
    Unbuildable,
    Destroy,
}

impl Overlay {
    /// The texture that draws this mark.
    pub open spec fn spec_texture(self) -> Texture {
        match self {
            Overlay::Buildable => Texture::SelectBuildable,
            Overlay::Unbuildable => Texture::SelectUnbuildable,
            Overlay::Destroy => Texture::SelectDestroy,
        }
    }

    /// The texture that draws this mark.
    #[verifier::when_used_as_spec(spec_texture)]
    pub fn texture(self) -> (t: Texture)
        ensures
            t == self.spec_texture(),
    {
        match self {
            Overlay::Buildable => Texture::SelectBuildable,
            Overlay::Unbuildable => Texture::SelectUnbuildable,
            Overlay::Destroy => Texture::SelectDestroy,
        }
    }
}

/// An edit of a single tile.
#[derive(Copy, Clone, Debug, PartialEq, Eq)]
pub enum TileInteraction {
    ReplaceGround(Ground),
    BuildCover(Cover),
    DemolishCover,
    BuildRoad([Road; 4]),
}

impl TileInteraction {
    /// Whether this edit writes to `tile`. An edit that does not is dropped
    /// as a whole.
    pub open spec fn spec_accepts(&self, tile: Tile) -> bool {
        match *self {
            TileInteraction::ReplaceGround(ground) => tile.cover.spec_can_go_on_ground(ground),
            TileInteraction::BuildCover(cover) => tile.cover is Empty
                && cover.spec_can_go_on_ground(tile.ground),
            TileInteraction::DemolishCover => true,
            TileInteraction::BuildRoad(_) => Cover::Road(no_quarters()).spec_can_go_on_ground(
                tile.ground,
            ) && (tile.cover is Empty || tile.cover is Road),
        }
    }

    /// The tile that this edit leaves where it found `tile`.
    pub open spec fn apply(&self, tile: Tile) -> Tile {
        if !self.spec_accepts(tile) {
            tile
        } else {
            match *self {
                TileInteraction::ReplaceGround(ground) => Tile { ground, cover: tile.cover },
                TileInteraction::BuildCover(cover) => Tile { ground: tile.ground, cover },
                TileInteraction::DemolishCover => Tile { ground: tile.ground, cover: Cover::Empty },
                TileInteraction::BuildRoad(quarters) => Tile {
                    ground: tile.ground,
                    cover: Cover::Road(
                        match tile.cover {
                            Cover::Road(existing) => merged(existing, quarters),
                            _ => quarters,
                        },
                    ),
                },
            }
        }
    }

    /// How the overlay marks `tile` while this edit is the active tool.
    pub open spec fn overlay(&self, tile: Tile) -> Overlay {
        match *self {
            TileInteraction::ReplaceGround(ground) => if ground != tile.ground
                && tile.cover.spec_can_go_on_ground(ground) {
                Overlay::Buildable
            } else {
                Overlay::Unbuildable
            },
            TileInteraction::BuildCover(cover) => if tile.cover is Empty
                && cover.spec_can_go_on_ground(tile.ground) {
                Overlay::Buildable
            } else {
                Overlay::Unbuildable
            },
            TileInteraction::DemolishCover => if tile.cover is Empty {
                Overlay::Unbuildable
            } else {
                Overlay::Destroy
            },
            TileInteraction::BuildRoad(_) => if (tile.cover is Empty || tile.cover is Road)
                && Cover::Road(no_quarters()).spec_can_go_on_ground(tile.ground) {
                Overlay::Buildable
            } else {
                Overlay::Unbuildable
            },
        }
    }

    /// The triangles that mark `tile`, which lies at `pos`, while this edit is
    /// the active tool.
    pub open spec fn select_tris(&self, tile: Tile, pos: [u16; 2]) -> Seq<Vertex> {
        self.overlay(tile).spec_texture().tris(pos)
    }

    /// Tells whether this edit writes to `tile`. Both the edit and the mark
    /// that the overlay gives the tile go by this answer.
    pub fn accepts(&self, tile: &Tile) -> (accepted: bool)
        ensures
            accepted == self.spec_accepts(*tile),
    {
        match self {
            TileInteraction::ReplaceGround(ground) => tile.cover.can_go_on_ground(*ground),
            TileInteraction::BuildCover(cover) => matches!(tile.cover, Cover::Empty)
                && cover.can_go_on_ground(tile.ground),
            TileInteraction::DemolishCover => true,
            TileInteraction::BuildRoad(_) => Cover::Road([Road::Empty;4]).can_go_on_ground(
                tile.ground,
            ) && (matches!(tile.cover, Cover::Empty) || matches!(tile.cover, Cover::Road(_))),
        }
    }

    /// Applies this edit to `tile`. An edit that the tile's ground or cover
    /// does not allow leaves the tile as it was.
    pub fn interact(&self, tile: &mut Tile)
        ensures
            *final(tile) == self.apply(*old(tile)),
            !self.spec_accepts(*old(tile)) ==> *final(tile) == *old(tile),
    {
        if !self.accepts(&*tile) {
            return ;
        }
        match self {
            TileInteraction::ReplaceGround(ground) => {
                tile.ground = *ground;
            },
            TileInteraction::BuildCover(cover) => {
                tile.cover = *cover;
            },
            TileInteraction::DemolishCover => {
                tile.cover = Cover::Empty;
            },
            TileInteraction::BuildRoad(road_quarters) => {
                match &mut tile.cover {
                    Cover::Road(current_road_quarters) => {
                        merge_quarters(current_road_quarters, road_quarters);
                    },
                    _ => {
                        tile.cover = Cover::Road(*road_quarters);
                    },
                }
            },
        }
    }

    /// Says how the overlay marks `tile` while this edit is the active tool.
    /// The tile is only read.
    pub fn classify(&self, tile: &Tile) -> (mark: Overlay)
        ensures
            mark == self.overlay(*tile),
    {
        if !self.accepts(tile) {
            Overlay::Unbuildable
        } else {
            match self {
                TileInteraction::ReplaceGround(ground) => {
                    if *ground == tile.ground {
                        Overlay::Unbuildable
                    } else {
                        Overlay::Buildable
                    }
                },
                TileInteraction::DemolishCover => {
                    if matches!(tile.cover, Cover::Empty) {
                        Overlay::Unbuildable
                    } else {
                        Overlay::Destroy
                    }
                },
                _ => Overlay::Buildable,
            }
        }
    }

    /// Builds the triangles that mark `tile`, which lies at `pos`, while this
    /// edit is the active tool.
    pub fn generate_select_tris(&self, tile: &Tile, pos: [u16; 2]) -> (tris: [Vertex; 6])
        ensures
            tris@ == self.select_tris(*tile, pos),
    {
        self.classify(tile).texture().generate_tris(pos)
    }
}

/// Replacing the ground writes the new ground exactly when the tile's cover
/// may stand on it, and touches nothing else; a tile whose cover may not is
/// left as it was.
pub proof fn lemma_replace_ground(tile: Tile, ground: Ground)
    ensures
        tile.cover.spec_can_go_on_ground(ground) ==> TileInteraction::ReplaceGround(ground).apply(
            tile,
        ) == (Tile { ground, cover: tile.cover }),
        !tile.cover.spec_can_go_on_ground(ground) ==> TileInteraction::ReplaceGround(ground).apply(
            tile,
        ) == tile,
{
}

/// Building a cover writes it exactly when the tile is empty and the cover
/// may stand on the tile's ground, and touches nothing else; any other tile
/// is left as it was.
pub proof fn lemma_build_cover(tile: Tile, cover: Cover)
    ensures
        tile.cover is Empty && cover.spec_can_go_on_ground(tile.ground)
            ==> TileInteraction::BuildCover(cover).apply(tile) == (Tile {
            ground: tile.ground,
            cover,
        }),
        !(tile.cover is Empty && cover.spec_can_go_on_ground(tile.ground))
            ==> TileInteraction::BuildCover(cover).apply(tile) == tile,
{
}

/// Demolishing always leaves an empty tile on the same ground, so
/// demolishing twice is demolishing once.
pub proof fn lemma_demolish_cover(tile: Tile)
    ensures
        TileInteraction::DemolishCover.apply(tile) == (Tile {
            ground: tile.ground,
            cover: Cover::Empty,
        }),
        TileInteraction::DemolishCover.apply(TileInteraction::DemolishCover.apply(tile))
            == TileInteraction::DemolishCover.apply(tile),
{
}

/// Laying the same quarters twice is laying them once: a quarter that was
/// filled is never written again.
pub proof fn lemma_merged_idempotent(existing: [Road; 4], wanted: [Road; 4])
    ensures
        merged(merged(existing, wanted), wanted) == merged(existing, wanted),
{
}

/// Building the same road twice on a tile is building it once.
pub proof fn lemma_build_road_idempotent(tile: Tile, quarters: [Road; 4])
    ensures
        TileInteraction::BuildRoad(quarters).apply(TileInteraction::BuildRoad(quarters).apply(tile))
            == TileInteraction::BuildRoad(quarters).apply(tile),
{
    assert(merged(quarters, quarters) =~= quarters);
}

/// A tile that the overlay marks as unbuildable is one that the edit leaves
/// as it was.
pub proof fn lemma_unbuildable_is_untouched(interaction: TileInteraction, tile: Tile)
    ensures
        interaction.overlay(tile) is Unbuildable ==> interaction.apply(tile) == tile,
{
}

/// The overlay marks a tile as buildable, or for destruction, exactly when
/// the edit writes to it. Left out are the two edits that would write what
/// the tile already holds, which the overlay marks as unbuildable: replacing
/// a ground by itself, and demolishing on an empty tile.
pub proof fn lemma_overlay_matches_edit(interaction: TileInteraction, tile: Tile)
    requires
        !(interaction matches TileInteraction::ReplaceGround(ground) && ground == tile.ground),
        !(interaction is DemolishCover && tile.cover is Empty),
    ensures
        !(interaction.overlay(tile) is Unbuildable) <==> interaction.spec_accepts(tile),
        interaction is DemolishCover ==> !(interaction.overlay(tile) is Buildable),
        !(interaction is DemolishCover) ==> !(interaction.overlay(tile) is Destroy),
{
}

/// A tool: an edit, and the rule that picks the tiles that a drag applies it
/// to.
#[derive(Copy, Clone, Debug, PartialEq, Eq)]
pub enum InteractionShape {
    /// The edit goes to the tile under the pointer.
    Dot(TileInteraction),
    /// The edit goes to every tile of the rectangle that the drag spans.
    Rectangle(TileInteraction),
    /// A road of this material is laid along the straight line of the drag.
    RoadLine(Road),
}

/// The smaller of two coordinates.
pub open spec fn low(a: u16, b: u16) -> int {
    if a <= b {
        a as int
    } else {
        b as int
    }
}

/// The larger of two coordinates.
pub open spec fn high(a: u16, b: u16) -> int {
    if a <= b {
        b as int
    } else {
        a as int
    }
}

/// Puts two coordinates in order: the smaller, then the larger.
pub fn span(a: u16, b: u16) -> (ends: (usize, usize))
    ensures
        ends.0 == low(a, b),
        ends.1 == high(a, b),
{
    if a <= b {
        (a as usize, b as usize)
    } else {
        (b as usize, a as usize)
    }
}

/// The quarters of the piece of road at place `at` of a line that runs from
/// `first` to `last`, where `toward_first` and `toward_last` are the sides
/// that face the line's two ends. The piece reaches towards each neighbour
/// that it has on the line, so the line is open at both of its ends.
pub open spec fn line_quarters(
    road: Road,
    at: int,
    first: int,
    last: int,
    toward_first: Direction4,
    toward_last: Direction4,
) -> [Road; 4] {
    let reaches = |side: Direction4|
        if (side == toward_first && at != first) || (side == toward_last && at != last) {
            road
        } else {
            Road::Empty
        };
    [
        reaches(Direction4::North),
        reaches(Direction4::East),
        reaches(Direction4::South),
        reaches(Direction4::West),
    ]
}

/// The tile that is left where `tile` was found, after the edit that falls
/// on its place, if any.
pub open spec fn tile_after(edit: Option<TileInteraction>, tile: Tile) -> Tile {
    match edit {
        Some(interaction) => interaction.apply(tile),
        None => tile,
    }
}

impl InteractionShape {
    /// The edit that a drag of this tool applies to the tile in column `x`
    /// and row `y`, or `None` where the drag leaves that tile alone.
    ///
    /// A line follows the axis of the drag, on the row or column where the
    /// drag began; a drag that spans a single place along that axis lays
    /// nothing.
    pub open spec fn edit_at(&self, mouse: Mouse, x: int, y: int) -> Option<TileInteraction> {
        let x_low = low(mouse.click_start[0], mouse.pos[0]);
        let x_high = high(mouse.click_start[0], mouse.pos[0]);
        let y_low = low(mouse.click_start[1], mouse.pos[1]);
        let y_high = high(mouse.click_start[1], mouse.pos[1]);
        match *self {
            InteractionShape::Dot(interaction) => if x == mouse.pos[0] && y == mouse.pos[1] {
                Some(interaction)
            } else {
                None
            },
            InteractionShape::Rectangle(interaction) => if x_low <= x <= x_high && y_low <= y
                <= y_high {
                Some(interaction)
            } else {
                None
            },
            InteractionShape::RoadLine(road) => match mouse.line_drag_direction() {
                Direction2::NorthSouth => if x == mouse.click_start[0] && y_low <= y <= y_high
                    && y_low < y_high {
                    Some(
                        TileInteraction::BuildRoad(
                            line_quarters(road, y, y_low, y_high, Direction4::North, Direction4::South),
                        ),
                    )
                } else {
                    None
                },
                Direction2::EastWest => if y == mouse.click_start[1] && x_low <= x <= x_high
                    && x_low < x_high {
                    Some(
                        TileInteraction::BuildRoad(
                            line_quarters(road, x, x_low, x_high, Direction4::West, Direction4::East),
                        ),
                    )
                } else {
                    None
                },
            },
        }
    }

    /// The grid that a drag of this tool leaves where it found `tiles`: each
    /// tile in the drag's reach has its edit applied once, every other tile
    /// is as it was.
    pub open spec fn apply(&self, tiles: Seq<Seq<Tile>>, mouse: Mouse) -> Seq<Seq<Tile>> {
        Seq::new(
            tiles.len(),
            |x: int|
                Seq::new(
                    tiles[x].len(),
                    |y: int| tile_after(self.edit_at(mouse, x, y), tiles[x][y]),
                ),
        )
    }
}

/// Applies `interaction` to the tile in column `x` and row `y`.
fn interact_at(tiles: &mut TileGrid, x: usize, y: usize, interaction: &TileInteraction)
    requires
        x < old(tiles)@.len(),
        y < old(tiles)@[x as int].len(),
    ensures
        final(tiles)@ == old(tiles)@.update(
            x as int,
            old(tiles)@[x as int].update(y as int, interaction.apply(old(tiles)@[x as int][y as int])),
        ),
{
    let mut tile = grid_get(tiles, x, y);
    interaction.interact(&mut tile);
    grid_set(tiles, x, y, tile);
}

/// Whether `now` holds the tiles of `before` with the edits of `shape` made
/// on the places that `done` picks, and on no others.
spec fn edited_where(
    now: Seq<Seq<Tile>>,
    before: Seq<Seq<Tile>>,
    shape: InteractionShape,
    mouse: Mouse,
    done: spec_fn(int, int) -> bool,
) -> bool {
    &&& now.len() == before.len()
    &&& forall|x: int| 0 <= x < before.len() ==> (#[trigger] now[x]).len() == before[x].len()
    &&& forall|x: int, y: int|
        0 <= x < before.len() && 0 <= y < before[x].len() ==> #[trigger] now[x][y] == if done(
            x,
            y,
        ) {
            tile_after(shape.edit_at(mouse, x, y), before[x][y])
        } else {
            before[x][y]
        }
}

impl InteractionShape {
    /// Applies a drag of this tool to the grid.
    pub fn interact(&self, tiles: &mut TileGrid, mouse: &Mouse)
        requires
            in_bounds(old(tiles)@, mouse.pos),
            in_bounds(old(tiles)@, mouse.click_start),
        ensures
            final(tiles)@ == self.apply(old(tiles)@, *mouse),
    {
        let height = grid_height(tiles);
        let (x_low, x_high) = span(mouse.click_start[0], mouse.pos[0]);
        let (y_low, y_high) = span(mouse.click_start[1], mouse.pos[1]);
        match self {
            InteractionShape::Dot(tile_interaction) => {
                interact_at(tiles, mouse.pos[0] as usize, mouse.pos[1] as usize, tile_interaction);
                assert(edited_where(tiles@, old(tiles)@, *self, *mouse, |x: int, y: int| true));
            },
            InteractionShape::Rectangle(tile_interaction) => {
                let mut y: usize = y_low;
                while y <= y_high
                    invariant
                        y_low <= y <= y_high + 1,
                        y_high < height,
                        x_low <= x_high < old(tiles)@.len(),
                        x_low == low(mouse.click_start[0], mouse.pos[0]),
                        x_high == high(mouse.click_start[0], mouse.pos[0]),
                        y_low == low(mouse.click_start[1], mouse.pos[1]),
                        y_high == high(mouse.click_start[1], mouse.pos[1]),
                        columns_hold(old(tiles)@, height as nat),
                        *self == InteractionShape::Rectangle(*tile_interaction),
                        edited_where(
                            tiles@,
                            old(tiles)@,
                            *self,
                            *mouse,
                            |cx: int, cy: int| cy < y,
                        ),
                    decreases y_high + 1 - y,
                {
                    let mut x: usize = x_low;
                    while x <= x_high
                        invariant
                            x_low <= x <= x_high + 1,
                            y_low <= y <= y_high < height,
                            x_low <= x_high < old(tiles)@.len(),
                            x_low == low(mouse.click_start[0], mouse.pos[0]),
                            x_high == high(mouse.click_start[0], mouse.pos[0]),
                            y_low == low(mouse.click_start[1], mouse.pos[1]),
                            y_high == high(mouse.click_start[1], mouse.pos[1]),
                            columns_hold(old(tiles)@, height as nat),
                            *self == InteractionShape::Rectangle(*tile_interaction),
                            edited_where(
                                tiles@,
                                old(tiles)@,
                                *self,
                                *mouse,
                                |cx: int, cy: int| cy < y || (cy == y && cx < x),
                            ),
                        decreases x_high + 1 - x,
                    {
                        interact_at(tiles, x, y, tile_interaction);
                        x += 1;
                    }
                    y += 1;
                }
                assert(edited_where(tiles@, old(tiles)@, *self, *mouse, |x: int, y: int| true));
            },
            InteractionShape::RoadLine(road) => {
                match mouse.get_line_drag_direction() {
                    Direction2::NorthSouth => {
                        let x: usize = mouse.click_start[0] as usize;
                        if y_low != y_high {
                            let mut y: usize = y_low;
                            while y <= y_high
                                invariant
                                    y_low <= y <= y_high + 1,
                                    y_low < y_high < height,
                                    x == mouse.click_start[0] < old(tiles)@.len(),
                                    y_low == low(mouse.click_start[1], mouse.pos[1]),
                                    y_high == high(mouse.click_start[1], mouse.pos[1]),
                                    columns_hold(old(tiles)@, height as nat),
                                    *self == InteractionShape::RoadLine(*road),
                                    mouse.line_drag_direction() == Direction2::NorthSouth,
                                    edited_where(
                                        tiles@,
                                        old(tiles)@,
                                        *self,
                                        *mouse,
                                        |cx: int, cy: int| cy < y,
                                    ),
                                decreases y_high + 1 - y,
                            {
                                let mut road_quarters = [Road::Empty;4];
                                if y != y_low {
                                    road_quarters[0] = *road;
                                }
                                if y != y_high {
                                    road_quarters[2] = *road;
                                }
                                assert(road_quarters =~= line_quarters(
                                    *road,
                                    y as int,
                                    y_low as int,
                                    y_high as int,
                                    Direction4::North,
                                    Direction4::South,
                                ));
                                let tile_interaction = TileInteraction::BuildRoad(road_quarters);
                                interact_at(tiles, x, y, &tile_interaction);
                                y += 1;
                            }
                        }
                    },
                    Direction2::EastWest => {
                        let y: usize = mouse.click_start[1] as usize;
                        if x_low != x_high {
                            let mut x: usize = x_low;
                            while x <= x_high
                                invariant
                                    x_low <= x <= x_high + 1,
                                    x_low < x_high < old(tiles)@.len(),
                                    y == mouse.click_start[1] < height,
                                    x_low == low(mouse.click_start[0], mouse.pos[0]),
                                    x_high == high(mouse.click_start[0], mouse.pos[0]),
                                    columns_hold(old(tiles)@, height as nat),
                                    *self == InteractionShape::RoadLine(*road),
                                    mouse.line_drag_direction() == Direction2::EastWest,
                                    edited_where(
                                        tiles@,
                                        old(tiles)@,
                                        *self,
                                        *mouse,
                                        |cx: int, cy: int| cx < x,
                                    ),
                                decreases x_high + 1 - x,
                            {
                                let mut road_quarters = [Road::Empty;4];
                                if x != x_low {
                                    road_quarters[3] = *road;
                                }
                                if x != x_high {
                                    road_quarters[1] = *road;
                                }
                                assert(road_quarters =~= line_quarters(
                                    *road,
                                    x as int,
                                    x_low as int,
                                    x_high as int,
                                    Direction4::West,
                                    Direction4::East,
                                ));
                                let tile_interaction = TileInteraction::BuildRoad(road_quarters);
                                interact_at(tiles, x, y, &tile_interaction);
                                x += 1;
                            }
                        }
                    },
                }
                assert(edited_where(tiles@, old(tiles)@, *self, *mouse, |x: int, y: int| true));
            },
        }
        assert(tiles@ =~~= self.apply(old(tiles)@, *mouse));
    }
}

} // verus!
