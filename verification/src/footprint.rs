use vstd::prelude::*;
use crate::direction::Direction2;
use crate::interaction::{high, low, InteractionShape, TileInteraction};
use crate::mouse::{distance, Mouse};
use crate::overlay::{column_parts, lemma_flatten_step, rectangle_parts, row_parts};
use crate::tile::{Road, Tile};
use crate::vertex::Vertex;

verus! {

/// The places of column `x` from row `y_low` to row `y_high`.
pub open spec fn column_span(x: int, y_low: int, y_high: int) -> Set<(int, int)> {
    Set::new(|place: (int, int)| place.0 == x && y_low <= place.1 <= y_high)
}

/// The places from column `x_low` to column `x_high` and from row `y_low` to
/// row `y_high`.
pub open spec fn rectangle(x_low: int, x_high: int, y_low: int, y_high: int) -> Set<(int, int)> {
    Set::new(
        |place: (int, int)| x_low <= place.0 <= x_high && y_low <= place.1 <= y_high,
    )
}

impl InteractionShape {
    /// The places whose tiles a drag of this tool edits.
    pub open spec fn footprint(&self, mouse: Mouse) -> Set<(int, int)> {
        Set::new(|place: (int, int)| self.edit_at(mouse, place.0, place.1) is Some)
    }
}

/// A span of a column holds one place for each of its rows.
pub proof fn lemma_column_span_len(x: int, y_low: int, y_high: int)
    requires
        y_low <= y_high + 1,
    ensures
        column_span(x, y_low, y_high).finite(),
        column_span(x, y_low, y_high).len() == y_high - y_low + 1,
    decreases y_high - y_low + 1,
{
    if y_high < y_low {
        assert(column_span(x, y_low, y_high) =~= Set::empty());
    } else {
        lemma_column_span_len(x, y_low, y_high - 1);
        assert(column_span(x, y_low, y_high) =~= column_span(x, y_low, y_high - 1).insert(
            (x, y_high),
        ));
    }
}

/// A rectangle holds as many places as its width times its height.
pub proof fn lemma_rectangle_len(x_low: int, x_high: int, y_low: int, y_high: int)
    requires
        x_low <= x_high + 1,
        y_low <= y_high + 1,
    ensures
        rectangle(x_low, x_high, y_low, y_high).finite(),
        rectangle(x_low, x_high, y_low, y_high).len() == (x_high - x_low + 1) * (y_high - y_low
            + 1),
    decreases x_high - x_low + 1,
{
    let width = x_high - x_low + 1;
    let height = y_high - y_low + 1;
    if x_high < x_low {
        assert(rectangle(x_low, x_high, y_low, y_high) =~= Set::empty());
        assert(width * height == 0) by (nonlinear_arith)
            requires
                width == 0,
        ;
    } else {
        let rest = rectangle(x_low, x_high - 1, y_low, y_high);
        let last = column_span(x_high, y_low, y_high);
        lemma_rectangle_len(x_low, x_high - 1, y_low, y_high);
        lemma_column_span_len(x_high, y_low, y_high);
        assert(rectangle(x_low, x_high, y_low, y_high) =~= rest + last);
        assert(rest.disjoint(last));
        vstd::set_lib::lemma_set_disjoint_lens(rest, last);
        assert(rest.len() == (width - 1) * height);
        assert((width - 1) * height + height == width * height) by (nonlinear_arith);
    }
}

/// A rectangle dragged from one corner to the other edits the tiles of
/// `(|x1 - x0| + 1) * (|y1 - y0| + 1)` places, and each of them once: the
/// tile of a place in the rectangle has the edit applied to it a single
/// time, and the tile of any other place is as it was. What the grid holds
/// afterwards is given place by place, so it does not depend on the order in
/// which the places are visited.
pub proof fn lemma_rectangle_footprint(
    interaction: TileInteraction,
    tiles: Seq<Seq<Tile>>,
    mouse: Mouse,
)
    ensures
        InteractionShape::Rectangle(interaction).footprint(mouse).finite(),
        InteractionShape::Rectangle(interaction).footprint(mouse).len() == (distance(
            mouse.click_start[0],
            mouse.pos[0],
        ) + 1) * (distance(mouse.click_start[1], mouse.pos[1]) + 1),
        forall|x: int, y: int|
            #![trigger InteractionShape::Rectangle(interaction).apply(tiles, mouse)[x][y]]
            0 <= x < tiles.len() && 0 <= y < tiles[x].len() ==> InteractionShape::Rectangle(
                interaction,
            ).apply(tiles, mouse)[x][y] == if InteractionShape::Rectangle(interaction).footprint(
                mouse,
            ).contains((x, y)) {
                interaction.apply(tiles[x][y])
            } else {
                tiles[x][y]
            },
{
    let x_low = low(mouse.click_start[0], mouse.pos[0]);
    let x_high = high(mouse.click_start[0], mouse.pos[0]);
    let y_low = low(mouse.click_start[1], mouse.pos[1]);
    let y_high = high(mouse.click_start[1], mouse.pos[1]);
    lemma_rectangle_len(x_low, x_high, y_low, y_high);
    assert(InteractionShape::Rectangle(interaction).footprint(mouse) =~= rectangle(
        x_low,
        x_high,
        y_low,
        y_high,
    ));
}

/// Applying an edit to the tile that it left is applying it once.
pub proof fn lemma_edit_idempotent(interaction: TileInteraction, tile: Tile)
    ensures
        interaction.apply(interaction.apply(tile)) == interaction.apply(tile),
{
    if let TileInteraction::BuildRoad(quarters) = interaction {
        crate::interaction::lemma_build_road_idempotent(tile, quarters);
    }
}

/// Making the same drag twice leaves the grid that making it once leaves.
pub proof fn lemma_drag_idempotent(shape: InteractionShape, tiles: Seq<Seq<Tile>>, mouse: Mouse)
    ensures
        shape.apply(shape.apply(tiles, mouse), mouse) == shape.apply(tiles, mouse),
{
    let once = shape.apply(tiles, mouse);
    let twice = shape.apply(once, mouse);
    assert forall|x: int, y: int| 0 <= x < tiles.len() && 0 <= y < tiles[x].len() implies twice[x][y]
        == once[x][y] by {
        if let Some(interaction) = shape.edit_at(mouse, x, y) {
            lemma_edit_idempotent(interaction, tiles[x][y]);
        }
    }
    assert(twice =~~= once);
}

/// Dragging the same line of road twice leaves the grid that dragging it
/// once leaves: a quarter that the first drag filled is not written again.
pub proof fn lemma_road_line_idempotent(road: Road, tiles: Seq<Seq<Tile>>, mouse: Mouse)
    ensures
        InteractionShape::RoadLine(road).apply(
            InteractionShape::RoadLine(road).apply(tiles, mouse),
            mouse,
        ) == InteractionShape::RoadLine(road).apply(tiles, mouse),
{
    lemma_drag_idempotent(InteractionShape::RoadLine(road), tiles, mouse);
}

/// The overlay marks a tile for a road without looking at the quarters that
/// are to be laid: the mark is that of the road that the drag would build
/// there.
pub proof fn lemma_road_mark_ignores_quarters(first: [Road; 4], second: [Road; 4], tile: Tile)
    ensures
        TileInteraction::BuildRoad(first).overlay(tile) == TileInteraction::BuildRoad(
            second,
        ).overlay(tile),
        TileInteraction::BuildRoad(first).spec_accepts(tile) == TileInteraction::BuildRoad(
            second,
        ).spec_accepts(tile),
{
}

/// Parts of one length join to a sequence of that length times their
/// number.
pub proof fn lemma_flatten_len(parts: spec_fn(int) -> Seq<Vertex>, count: nat, each: nat)
    requires
        forall|index: int| 0 <= index < count ==> (#[trigger] parts(index)).len() == each,
    ensures
        Seq::new(count, parts).flatten().len() == count * each,
    decreases count,
{
    if count == 0 {
        assert(Seq::new(0, parts) =~= Seq::<Seq<Vertex>>::empty());
    } else {
        let fewer = (count - 1) as nat;
        lemma_flatten_len(parts, fewer, each);
        lemma_flatten_step(parts, fewer);
        assert(fewer * each + each == count * each) by (nonlinear_arith)
            requires
                fewer + 1 == count,
        ;
    }
}

/// While the left button is held, the overlay draws one mark, of two
/// triangles, for each tile that letting go would edit.
pub proof fn lemma_overlay_spans_footprint(
    shape: InteractionShape,
    tiles: Seq<Seq<Tile>>,
    mouse: Mouse,
)
    requires
        mouse.is_left_clicking,
    ensures
        shape.footprint(mouse).finite(),
        shape.select_tris(tiles, mouse).len() == 6 * shape.footprint(mouse).len(),
{
    let x_low = low(mouse.click_start[0], mouse.pos[0]);
    let x_high = high(mouse.click_start[0], mouse.pos[0]);
    let y_low = low(mouse.click_start[1], mouse.pos[1]);
    let y_high = high(mouse.click_start[1], mouse.pos[1]);
    let width = (x_high - x_low + 1) as nat;
    let height = (y_high - y_low + 1) as nat;
    match shape {
        InteractionShape::Dot(interaction) => {
            let x = mouse.pos[0] as int;
            let y = mouse.pos[1] as int;
            lemma_column_span_len(x, y, y);
            assert(shape.footprint(mouse) =~= column_span(x, y, y));
        },
        InteractionShape::Rectangle(interaction) => {
            lemma_rectangle_footprint(interaction, tiles, mouse);
            let rows = rectangle_parts(interaction, tiles, x_low, width, y_low);
            assert forall|offset: int| 0 <= offset < height implies (#[trigger] rows(
                offset,
            )).len() == width * 6 by {
                lemma_flatten_len(row_parts(interaction, tiles, x_low, y_low + offset), width, 6);
            }
            lemma_flatten_len(rows, height, width * 6);
            assert(height * (width * 6) == 6 * (width * height)) by (nonlinear_arith);
        },
        InteractionShape::RoadLine(road) => {
            let bare = TileInteraction::BuildRoad(crate::interaction::no_quarters());
            match mouse.line_drag_direction() {
                Direction2::NorthSouth => {
                    let x = mouse.click_start[0] as int;
                    if y_low < y_high {
                        lemma_column_span_len(x, y_low, y_high);
                        assert(shape.footprint(mouse) =~= column_span(x, y_low, y_high));
                        lemma_flatten_len(column_parts(bare, tiles, x, y_low), height, 6);
                                } else {
                        assert(shape.footprint(mouse) =~= Set::empty());
                                }
                },
                Direction2::EastWest => {
                    let y = mouse.click_start[1] as int;
                    if x_low < x_high {
                        lemma_rectangle_len(x_low, x_high, y, y);
                        assert((x_high - x_low + 1) * (y - y + 1) == width) by (nonlinear_arith)
                            requires
                                width == x_high - x_low + 1,
                        ;
                        assert(shape.footprint(mouse) =~= rectangle(x_low, x_high, y, y));
                        lemma_flatten_len(row_parts(bare, tiles, x_low, y), width, 6);
                                } else {
                        assert(shape.footprint(mouse) =~= Set::empty());
                                }
                },
            }
        },
    }
}

} // verus!
