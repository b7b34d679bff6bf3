use grid_sim::direction::Direction2;
use grid_sim::gui::{tool, Tool, GUI, TOOL_COUNT};
use grid_sim::interaction::{span, InteractionShape, TileInteraction};
use grid_sim::mouse::Mouse;
use grid_sim::texture::{generate_tris_from_id, Texture};
use grid_sim::tile::{Cover, Ground, Road, Tile};
use grid_sim::vertex::Vertex;
use grid_sim::world::World;

fn drag(from: [u16; 2], to: [u16; 2], held: bool) -> Mouse {
    Mouse {
        pos: to,
        click_start: from,
        gui_pos: [0, 0],
        is_left_clicking: held,
        is_middle_clicking: false,
        is_right_clicking: false,
    }
}

fn tile(world: &World, x: u16, y: u16) -> Tile {
    world.tiles.tile(x, y).unwrap()
}

fn snapshot(world: &World) -> Vec<Tile> {
    let mut all = Vec::new();
    for x in 0..world.get_width() {
        for y in 0..world.get_height() {
            all.push(tile(world, x, y));
        }
    }
    all
}

fn changed(world: &World) -> usize {
    snapshot(world).iter().filter(|tile| **tile != Tile::new()).count()
}

const N: Road = Road::Empty;
const G: Road = Road::Gravel;

#[test]
fn new_world_is_256_by_256_grass() {
    let world = World::new();
    assert_eq!(world.get_width(), 256);
    assert_eq!(world.get_height(), 256);
    assert_eq!(snapshot(&world).len(), 65536);
    assert_eq!(changed(&world), 0);
}

#[test]
fn tile_lookup_stops_at_the_edge() {
    let world = World::new();
    assert_eq!(world.tiles.tile(0, 0), Some(Tile::new()));
    assert_eq!(world.tiles.tile(255, 255), Some(Tile::new()));
    assert_eq!(world.tiles.tile(256, 0), None);
    assert_eq!(world.tiles.tile(0, 256), None);
    assert_eq!(world.tiles.tile(65535, 65535), None);
}

#[test]
fn dot_edits_the_tile_under_the_pointer() {
    let mut world = World::new();
    let shape = InteractionShape::Dot(TileInteraction::BuildCover(Cover::TestBuilding));
    world.interact(&shape, &drag([1, 1], [7, 3], false));
    assert_eq!(tile(&world, 7, 3), Tile { ground: Ground::Grass, cover: Cover::TestBuilding });
    assert_eq!(tile(&world, 3, 7), Tile::new());
    assert_eq!(tile(&world, 1, 1), Tile::new());
    assert_eq!(changed(&world), 1);
}

#[test]
fn rectangle_touches_each_tile_of_its_span_once() {
    for (from, to) in [
        ([2u16, 3u16], [5u16, 4u16]),
        ([5, 4], [2, 3]),
        ([2, 4], [5, 3]),
        ([9, 9], [9, 9]),
        ([0, 0], [0, 11]),
        ([250, 250], [255, 255]),
    ] {
        let mut world = World::new();
        let shape = InteractionShape::Rectangle(TileInteraction::ReplaceGround(Ground::Bricks));
        world.interact(&shape, &drag(from, to, false));
        let dx = usize::from(from[0].abs_diff(to[0]));
        let dy = usize::from(from[1].abs_diff(to[1]));
        assert_eq!(changed(&world), (dx + 1) * (dy + 1));
        for x in 0..world.get_width() {
            for y in 0..world.get_height() {
                let inside = from[0].min(to[0]) <= x
                    && x <= from[0].max(to[0])
                    && from[1].min(to[1]) <= y
                    && y <= from[1].max(to[1]);
                let ground = if inside { Ground::Bricks } else { Ground::Grass };
                assert_eq!(tile(&world, x, y), Tile { ground, cover: Cover::Empty });
            }
        }
    }
}

#[test]
fn rectangle_of_eight_tiles() {
    let mut world = World::new();
    let shape = InteractionShape::Rectangle(TileInteraction::BuildCover(Cover::Tree));
    world.interact(&shape, &drag([2, 3], [5, 4], false));
    assert_eq!(changed(&world), 8);
}

#[test]
fn rectangle_skips_tiles_that_refuse_the_edit() {
    let mut world = World::new();
    let water = InteractionShape::Rectangle(TileInteraction::ReplaceGround(Ground::Water));
    let trees = InteractionShape::Rectangle(TileInteraction::BuildCover(Cover::Tree));
    world.interact(&water, &drag([0, 0], [1, 3], false));
    world.interact(&trees, &drag([0, 0], [3, 3], false));
    assert_eq!(tile(&world, 1, 2), Tile { ground: Ground::Water, cover: Cover::Empty });
    assert_eq!(tile(&world, 2, 2), Tile { ground: Ground::Grass, cover: Cover::Tree });
    world.interact(&water, &drag([0, 0], [3, 3], false));
    assert_eq!(tile(&world, 2, 2), Tile { ground: Ground::Grass, cover: Cover::Tree });
}

#[test]
fn road_line_north_south() {
    let mut world = World::new();
    let shape = InteractionShape::RoadLine(Road::Gravel);
    let mouse = drag([2, 2], [2, 5], false);
    assert_eq!(mouse.get_line_drag_direction(), Direction2::NorthSouth);
    world.interact(&shape, &mouse);
    assert_eq!(tile(&world, 2, 2).cover, Cover::Road([N, N, G, N]));
    assert_eq!(tile(&world, 2, 3).cover, Cover::Road([G, N, G, N]));
    assert_eq!(tile(&world, 2, 4).cover, Cover::Road([G, N, G, N]));
    assert_eq!(tile(&world, 2, 5).cover, Cover::Road([G, N, N, N]));
    assert_eq!(tile(&world, 2, 1), Tile::new());
    assert_eq!(tile(&world, 2, 6), Tile::new());
    assert_eq!(changed(&world), 4);
}

#[test]
fn road_line_east_west() {
    let mut world = World::new();
    let shape = InteractionShape::RoadLine(Road::Gravel);
    let mouse = drag([6, 10], [3, 11], false);
    assert_eq!(mouse.get_line_drag_direction(), Direction2::EastWest);
    world.interact(&shape, &mouse);
    assert_eq!(tile(&world, 3, 10).cover, Cover::Road([N, G, N, N]));
    assert_eq!(tile(&world, 4, 10).cover, Cover::Road([N, G, N, G]));
    assert_eq!(tile(&world, 5, 10).cover, Cover::Road([N, G, N, G]));
    assert_eq!(tile(&world, 6, 10).cover, Cover::Road([N, N, N, G]));
    assert_eq!(tile(&world, 3, 11), Tile::new());
    assert_eq!(changed(&world), 4);
}

#[test]
fn drag_direction_tie_goes_north_south() {
    assert_eq!(drag([4, 4], [7, 7], false).get_line_drag_direction(), Direction2::NorthSouth);
    assert_eq!(drag([4, 4], [4, 4], false).get_line_drag_direction(), Direction2::NorthSouth);
    assert_eq!(drag([4, 4], [8, 7], false).get_line_drag_direction(), Direction2::EastWest);
    assert_eq!(drag([8, 7], [4, 4], false).get_line_drag_direction(), Direction2::EastWest);
    assert_eq!(drag([4, 4], [7, 8], false).get_line_drag_direction(), Direction2::NorthSouth);
    assert_eq!(drag([0, 65535], [65535, 0], false).get_line_drag_direction(), Direction2::NorthSouth);
    let mut world = World::new();
    world.interact(&InteractionShape::RoadLine(Road::Gravel), &drag([4, 4], [7, 7], false));
    assert_eq!(tile(&world, 4, 4).cover, Cover::Road([N, N, G, N]));
    assert_eq!(tile(&world, 4, 7).cover, Cover::Road([G, N, N, N]));
    assert_eq!(tile(&world, 7, 7), Tile::new());
    assert_eq!(changed(&world), 4);
}

#[test]
fn degenerate_road_line_is_a_no_op() {
    let mut world = World::new();
    let shape = InteractionShape::RoadLine(Road::Gravel);
    world.interact(&shape, &drag([5, 5], [5, 5], false));
    assert_eq!(changed(&world), 0);
}

#[test]
fn road_line_is_idempotent() {
    let mut world = World::new();
    let shape = InteractionShape::RoadLine(Road::Gravel);
    let mouse = drag([2, 2], [2, 5], false);
    world.interact(&shape, &mouse);
    let once = snapshot(&world);
    world.interact(&shape, &mouse);
    assert_eq!(snapshot(&world), once);
}

#[test]
fn crossing_roads_merge_their_quarters() {
    let mut world = World::new();
    let shape = InteractionShape::RoadLine(Road::Gravel);
    world.interact(&shape, &drag([3, 1], [3, 5], false));
    world.interact(&shape, &drag([1, 3], [5, 3], false));
    assert_eq!(tile(&world, 3, 3).cover, Cover::Road([G, G, G, G]));
    assert_eq!(tile(&world, 3, 2).cover, Cover::Road([G, N, G, N]));
    assert_eq!(tile(&world, 2, 3).cover, Cover::Road([N, G, N, G]));
    let crossed = snapshot(&world);
    world.interact(&shape, &drag([1, 3], [5, 3], false));
    assert_eq!(snapshot(&world), crossed);
}

#[test]
fn road_line_skips_water_and_occupied_tiles() {
    let mut world = World::new();
    world.interact(
        &InteractionShape::Dot(TileInteraction::ReplaceGround(Ground::Water)),
        &drag([0, 0], [2, 3], false),
    );
    world.interact(
        &InteractionShape::Dot(TileInteraction::BuildCover(Cover::Tree)),
        &drag([0, 0], [2, 4], false),
    );
    world.interact(&InteractionShape::RoadLine(Road::Gravel), &drag([2, 2], [2, 5], false));
    assert_eq!(tile(&world, 2, 2).cover, Cover::Road([N, N, G, N]));
    assert_eq!(tile(&world, 2, 3), Tile { ground: Ground::Water, cover: Cover::Empty });
    assert_eq!(tile(&world, 2, 4), Tile { ground: Ground::Grass, cover: Cover::Tree });
    assert_eq!(tile(&world, 2, 5).cover, Cover::Road([G, N, N, N]));
}

#[test]
fn shape_interact_on_the_grid_itself() {
    let mut world = World::new();
    let shape = InteractionShape::Rectangle(TileInteraction::DemolishCover);
    InteractionShape::Rectangle(TileInteraction::BuildCover(Cover::Tree))
        .interact(&mut world.tiles, &drag([0, 0], [2, 2], false));
    assert_eq!(changed(&world), 9);
    shape.interact(&mut world.tiles, &drag([1, 1], [2, 2], false));
    assert_eq!(changed(&world), 5);
}

#[test]
fn set_pos_clamps_into_the_world() {
    let world = World::new();
    let mut mouse = drag([9, 9], [3, 3], true);
    mouse.set_pos([-4, 300], [5, 6], &world);
    assert_eq!(mouse.pos, [0, 255]);
    assert_eq!(mouse.gui_pos, [5, 6]);
    assert_eq!(mouse.click_start, [9, 9]);
    assert!(mouse.is_left_clicking);
    mouse.set_pos([17, 42], [0, 16], &world);
    assert_eq!(mouse.pos, [17, 42]);
    mouse.set_pos([256, -1], [0, 0], &world);
    assert_eq!(mouse.pos, [255, 0]);
    mouse.set_pos([i32::MAX, i32::MIN], [0, 0], &world);
    assert_eq!(mouse.pos, [255, 0]);
    mouse.set_pos([255, 0], [0, 0], &world);
    assert_eq!(mouse.pos, [255, 0]);
}

#[test]
fn set_click_start_freezes_the_position() {
    let mut mouse = drag([0, 0], [12, 34], false);
    mouse.set_click_start();
    assert_eq!(mouse.click_start, [12, 34]);
    assert_eq!(mouse.pos, [12, 34]);
    mouse.pos = [1, 1];
    assert_eq!(mouse.click_start, [12, 34]);
}

fn mark(texture: Texture, x: u16, y: u16) -> Vec<Vertex> {
    texture.generate_tris([x, y]).to_vec()
}

#[test]
fn overlay_of_a_dot_marks_the_tile_under_the_pointer() {
    let world = World::new();
    let shape = InteractionShape::Dot(TileInteraction::BuildCover(Cover::TestBuilding));
    assert_eq!(
        shape.generate_select_tris(&world.tiles, &drag([0, 0], [4, 6], true)),
        mark(Texture::SelectBuildable, 4, 6)
    );
    let demolish = InteractionShape::Dot(TileInteraction::DemolishCover);
    assert_eq!(
        demolish.generate_select_tris(&world.tiles, &drag([0, 0], [4, 6], false)),
        mark(Texture::SelectUnbuildable, 4, 6)
    );
}

#[test]
fn overlay_of_a_rectangle_spans_the_drag_while_held() {
    let mut world = World::new();
    world.interact(
        &InteractionShape::Dot(TileInteraction::BuildCover(Cover::Tree)),
        &drag([0, 0], [3, 2], false),
    );
    let shape = InteractionShape::Rectangle(TileInteraction::DemolishCover);
    let mut expected = Vec::new();
    expected.extend(mark(Texture::SelectUnbuildable, 2, 1));
    expected.extend(mark(Texture::SelectUnbuildable, 3, 1));
    expected.extend(mark(Texture::SelectUnbuildable, 2, 2));
    expected.extend(mark(Texture::SelectDestroy, 3, 2));
    assert_eq!(shape.generate_select_tris(&world.tiles, &drag([3, 2], [2, 1], true)), expected);
    assert_eq!(
        shape.generate_select_tris(&world.tiles, &drag([3, 2], [2, 1], false)),
        mark(Texture::SelectUnbuildable, 2, 1)
    );
    assert_eq!(
        shape.generate_select_tris(&world.tiles, &drag([2, 1], [3, 2], false)),
        mark(Texture::SelectDestroy, 3, 2)
    );
}

#[test]
fn overlay_of_a_road_line_follows_the_drag() {
    let mut world = World::new();
    world.interact(
        &InteractionShape::Dot(TileInteraction::BuildCover(Cover::Tree)),
        &drag([0, 0], [2, 3], false),
    );
    world.interact(&InteractionShape::RoadLine(Road::Gravel), &drag([2, 4], [3, 4], false));
    let shape = InteractionShape::RoadLine(Road::Gravel);
    let mut expected = Vec::new();
    expected.extend(mark(Texture::SelectBuildable, 2, 2));
    expected.extend(mark(Texture::SelectUnbuildable, 2, 3));
    expected.extend(mark(Texture::SelectBuildable, 2, 4));
    assert_eq!(shape.generate_select_tris(&world.tiles, &drag([2, 2], [3, 4], true)), expected);
    let mut sideways = Vec::new();
    sideways.extend(mark(Texture::SelectBuildable, 1, 3));
    sideways.extend(mark(Texture::SelectUnbuildable, 2, 3));
    sideways.extend(mark(Texture::SelectBuildable, 3, 3));
    assert_eq!(shape.generate_select_tris(&world.tiles, &drag([3, 3], [1, 4], true)), sideways);
    assert_eq!(shape.generate_select_tris(&world.tiles, &drag([5, 5], [5, 5], true)), Vec::new());
    assert_eq!(
        shape.generate_select_tris(&world.tiles, &drag([2, 2], [3, 4], false)),
        mark(Texture::Select, 3, 4)
    );
}

#[test]
fn overlay_leaves_the_grid_as_it_was() {
    let mut world = World::new();
    world.interact(
        &InteractionShape::Rectangle(TileInteraction::BuildCover(Cover::Tree)),
        &drag([0, 0], [3, 3], false),
    );
    let before = snapshot(&world);
    let mouse = drag([1, 1], [6, 6], true);
    for index in 0..TOOL_COUNT {
        let shape = tool(index).unwrap().interaction;
        shape.generate_select_tris(&world.tiles, &mouse);
    }
    assert_eq!(snapshot(&world), before);
}

#[test]
fn overlay_marks_agree_with_the_edit_over_a_rectangle() {
    let mut world = World::new();
    world.interact(
        &InteractionShape::Rectangle(TileInteraction::ReplaceGround(Ground::Water)),
        &drag([0, 0], [1, 3], false),
    );
    let shape = InteractionShape::Rectangle(TileInteraction::BuildCover(Cover::Tree));
    let mouse = drag([0, 0], [3, 3], true);
    let marks = shape.generate_select_tris(&world.tiles, &mouse);
    assert_eq!(marks.len(), 16 * 6);
    let before = snapshot(&world);
    world.interact(&shape, &mouse);
    for y in 0..4u16 {
        for x in 0..4u16 {
            let at = usize::from(y * 4 + x) * 6;
            let built = tile(&world, x, y) != before[usize::from(x) * 256 + usize::from(y)];
            let texture = if built { Texture::SelectBuildable } else { Texture::SelectUnbuildable };
            assert_eq!(&marks[at..at + 6], &mark(texture, x, y)[..]);
            assert_eq!(built, x >= 2);
        }
    }
}

#[test]
fn world_render_draws_rows_then_overlay() {
    let mut world = World::new();
    world.interact(
        &InteractionShape::Dot(TileInteraction::BuildCover(Cover::Tree)),
        &drag([0, 0], [1, 0], false),
    );
    let shape = InteractionShape::Dot(TileInteraction::DemolishCover);
    let mouse = drag([0, 0], [1, 0], false);
    let paused = world.render(&shape, &mouse, true);
    assert_eq!(paused.len(), 65536 * 6 + 6);
    assert_eq!(&paused[0..6], &generate_tris_from_id(0x01, [0, 0])[..]);
    assert_eq!(&paused[6..12], &generate_tris_from_id(0x01, [1, 0])[..]);
    assert_eq!(&paused[12..18], &generate_tris_from_id(0x05, [1, 0])[..]);
    assert_eq!(&paused[18..24], &generate_tris_from_id(0x01, [2, 0])[..]);
    let row = 257 * 6;
    assert_eq!(&paused[row..row + 6], &generate_tris_from_id(0x01, [0, 1])[..]);
    let end = paused.len();
    assert_eq!(&paused[end - 6..], &generate_tris_from_id(0x01, [255, 255])[..]);
    let live = world.render(&shape, &mouse, false);
    assert_eq!(live.len(), paused.len() + 6);
    assert_eq!(&live[..end], &paused[..]);
    assert_eq!(&live[end..], &mark(Texture::SelectDestroy, 1, 0)[..]);
}

#[test]
fn tool_table() {
    assert_eq!(TOOL_COUNT, 8);
    let ground = |ground| InteractionShape::Rectangle(TileInteraction::ReplaceGround(ground));
    let expected = [
        Tool { icon: Texture::Grass, interaction: ground(Ground::Grass) },
        Tool { icon: Texture::Water, interaction: ground(Ground::Water) },
        Tool { icon: Texture::Bricks, interaction: ground(Ground::Bricks) },
        Tool {
            icon: Texture::Bomb,
            interaction: InteractionShape::Rectangle(TileInteraction::DemolishCover),
        },
        Tool {
            icon: Texture::Tree,
            interaction: InteractionShape::Rectangle(TileInteraction::BuildCover(Cover::Tree)),
        },
        Tool {
            icon: Texture::TestBuilding,
            interaction: InteractionShape::Dot(TileInteraction::BuildCover(Cover::TestBuilding)),
        },
        Tool { icon: Texture::Gravel, interaction: ground(Ground::Gravel) },
        Tool {
            icon: Texture::GravelRoadGUI,
            interaction: InteractionShape::RoadLine(Road::Gravel),
        },
    ];
    for (index, entry) in expected.iter().enumerate() {
        assert_eq!(tool(index), Some(*entry));
    }
    assert_eq!(tool(8), None);
    assert_eq!(tool(63), None);
    assert_eq!(tool(usize::MAX), None);
}

#[test]
fn gui_render_draws_the_icons_when_open() {
    let mut gui = GUI::new();
    assert!(!gui.is_open);
    assert_eq!(gui.render(), Vec::new());
    gui.is_open = true;
    let tris = gui.render();
    assert_eq!(tris.len(), 8 * 6);
    assert_eq!(&tris[0..6], &mark(Texture::Grass, 4, 4)[..]);
    assert_eq!(&tris[18..24], &mark(Texture::Bomb, 7, 4)[..]);
    assert_eq!(&tris[42..48], &mark(Texture::GravelRoadGUI, 11, 4)[..]);
}

#[test]
fn gui_click_picks_the_tool_under_the_pointer() {
    let start = InteractionShape::Dot(TileInteraction::DemolishCover);
    let mut mouse = drag([0, 0], [0, 0], false);

    let mut gui = GUI { is_open: true };
    let mut active = start;
    mouse.gui_pos = [11, 4];
    gui.click(&mouse, &mut active);
    assert_eq!(active, InteractionShape::RoadLine(Road::Gravel));
    assert!(!gui.is_open);

    let mut gui = GUI { is_open: true };
    let mut active = start;
    mouse.gui_pos = [4, 4];
    gui.click(&mouse, &mut active);
    assert_eq!(
        active,
        InteractionShape::Rectangle(TileInteraction::ReplaceGround(Ground::Grass))
    );
    assert!(!gui.is_open);

    for miss in [[3u8, 4u8], [12, 4], [4, 3], [4, 12], [4, 5], [11, 11], [0, 0], [255, 255]] {
        let mut gui = GUI { is_open: true };
        let mut active = start;
        mouse.gui_pos = miss;
        gui.click(&mouse, &mut active);
        assert_eq!(active, start);
        assert!(gui.is_open);
    }
}

#[test]
fn span_orders_its_ends() {
    assert_eq!(span(3, 9), (3, 9));
    assert_eq!(span(9, 3), (3, 9));
    assert_eq!(span(7, 7), (7, 7));
    assert_eq!(span(65535, 0), (0, 65535));
}

#[test]
fn held_overlay_has_one_mark_for_each_tile_that_the_edit_touches() {
    let tools = [
        InteractionShape::Dot(TileInteraction::ReplaceGround(Ground::Sand)),
        InteractionShape::Rectangle(TileInteraction::ReplaceGround(Ground::Sand)),
        InteractionShape::RoadLine(Road::Gravel),
    ];
    for shape in tools {
        for (from, to) in [([2u16, 2u16], [2u16, 5u16]), ([6, 3], [1, 4]), ([4, 4], [4, 4])] {
            let mut world = World::new();
            let marks = shape.generate_select_tris(&world.tiles, &drag(from, to, true));
            world.interact(&shape, &drag(from, to, false));
            assert_eq!(marks.len(), 6 * changed(&world));
        }
    }
}
