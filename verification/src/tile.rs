use vstd::prelude::*;
use crate::direction::Direction4;
use crate::texture::{Texture, Texture4Directional};
use crate::vertex::{extend_tris, Vertex};

verus! {

/// The terrain of a tile.
#[derive(Copy, Clone, Debug, PartialEq, Eq, Structural)]
pub enum Ground {
    Grass,
    Water,
    Bricks,
    Gravel,
    LeafLitter,
    Swamp,
    Sand,
}

impl Ground {
    /// The texture that draws this ground.
    pub open spec fn spec_texture(self) -> Texture {
        match self {
            Ground::Grass => Texture::Grass,
            Ground::Water => Texture::Water,
            Ground::Bricks => Texture::Bricks,
            Ground::Gravel => Texture::Gravel,
            Ground::LeafLitter => Texture::LeafLitter,
            Ground::Swamp => Texture::Swamp,
            Ground::Sand => Texture::Sand,
        }
    }

    /// Whether this ground is dry enough to build on.
    pub open spec fn spec_is_land(self) -> bool {
        self is Grass || self is Bricks || self is Gravel || self is LeafLitter || self is Sand
    }

    /// Whether this ground is covered by water.
    pub open spec fn spec_is_water(self) -> bool {
        self is Water || self is Swamp
    }

    /// Whether plants grow on this ground.
    pub open spec fn spec_is_fertile(self) -> bool {
        self is Grass || self is LeafLitter || self is Swamp
    }

    /// The texture that draws this ground.
    #[verifier::when_used_as_spec(spec_texture)]
    pub fn texture(self) -> (t: Texture)
        ensures
            t == self.spec_texture(),
    {
        match self {
            Ground::Grass => Texture::Grass,
            Ground::Water => Texture::Water,
            Ground::Bricks => Texture::Bricks,
            Ground::Gravel => Texture::Gravel,
            Ground::LeafLitter => Texture::LeafLitter,
            Ground::Swamp => Texture::Swamp,
            Ground::Sand => Texture::Sand,
        }
    }

    /// Whether this ground is dry enough to build on.
    #[verifier::when_used_as_spec(spec_is_land)]
    pub fn is_land(self) -> (b: bool)
        ensures
            b == self.spec_is_land(),
    {
        match self {
            Ground::Grass => true,
            Ground::Water => false,
            Ground::Bricks => true,
            Ground::Gravel => true,
            Ground::LeafLitter => true,
            Ground::Swamp => false,
            Ground::Sand => true,
        }
    }

    /// Whether this ground is covered by water.
    #[verifier::when_used_as_spec(spec_is_water)]
    pub fn is_water(self) -> (b: bool)
        ensures
            b == self.spec_is_water(),
    {
        match self {
            Ground::Grass => false,
            Ground::Water => true,
            Ground::Bricks => false,
            Ground::Gravel => false,
            Ground::LeafLitter => false,
            Ground::Swamp => true,
            Ground::Sand => false,
        }
    }

    /// Whether plants grow on this ground.
    #[verifier::when_used_as_spec(spec_is_fertile)]
    pub fn is_fertile(self) -> (b: bool)
        ensures
            b == self.spec_is_fertile(),
    {
        match self {
            Ground::Grass => true,
            Ground::Water => false,
            Ground::Bricks => false,
            Ground::Gravel => false,
            Ground::LeafLitter => true,
            Ground::Swamp => true,
            Ground::Sand => false,
        }
    }
}

/// What one quarter of a tile carries as road surface.
#[derive(Copy, Clone, Debug, PartialEq, Eq, Structural)]
pub enum Road {
    Empty,
    Gravel,
}

impl Road {
    /// The texture that draws a quarter of this material.
    pub open spec fn spec_texture(self) -> Texture4Directional {
        Texture4Directional::GravelRoad
    }

    /// The texture that draws a quarter of this material.
    #[verifier::when_used_as_spec(spec_texture)]
    pub fn texture(self) -> (t: Texture4Directional)
        ensures
            t == self.spec_texture(),
    {
        match self {
            Road::Empty => Texture4Directional::GravelRoad,
            Road::Gravel => Texture4Directional::GravelRoad,
        }
    }
}

/// What stands on a tile. The quarters of a road are stored North, East,
/// South, West.
#[derive(Copy, Clone, Debug, PartialEq, Eq)]
pub enum Cover {
    Empty,
    Tree,
    TestBuilding,
    Road([Road; 4]),
}

/// The triangles that draw the quarter of a road that faces `direction`:
/// none where that quarter carries no surface.
pub open spec fn quarter_tris(quarters: [Road; 4], direction: Direction4, pos: [u16; 2]) -> Seq<
    Vertex,
> {
    let quarter = quarters[direction.int_val() as int];
    if quarter is Empty {
        Seq::empty()
    } else {
        quarter.spec_texture().tris(direction, pos)
    }
}

impl Cover {
    /// Whether this cover may stand on `ground`. Nothing may stand anywhere,
    /// a tree needs fertile land, a building or a road needs land.
    pub open spec fn spec_can_go_on_ground(&self, ground: Ground) -> bool {
        match *self {
            Cover::Empty => true,
            Cover::Tree => ground.spec_is_land() && ground.spec_is_fertile(),
            Cover::TestBuilding => ground.spec_is_land(),
            Cover::Road(_) => ground.spec_is_land(),
        }
    }

    /// The triangles that draw this cover on the tile at `pos`: the quarters
    /// of a road in compass order, each only where it carries a surface.
    pub open spec fn spec_render(&self, pos: [u16; 2]) -> Seq<Vertex> {
        match *self {
            Cover::Empty => Seq::empty(),
            Cover::Tree => Texture::Tree.tris(pos),
            Cover::TestBuilding => Texture::TestBuilding.tris(pos),
            Cover::Road(quarters) => quarter_tris(quarters, Direction4::North, pos) + quarter_tris(
                quarters,
                Direction4::East,
                pos,
            ) + quarter_tris(quarters, Direction4::South, pos) + quarter_tris(
                quarters,
                Direction4::West,
                pos,
            ),
        }
    }

    /// Whether this cover may stand on `ground`.
    #[verifier::when_used_as_spec(spec_can_go_on_ground)]
    pub fn can_go_on_ground(&self, ground: Ground) -> (b: bool)
        ensures
            b == self.spec_can_go_on_ground(ground),
    {
        match self {
            Cover::Empty => true,
            Cover::Tree => ground.is_land() && ground.is_fertile(),
            Cover::TestBuilding => ground.is_land(),
            Cover::Road(_) => ground.is_land(),
        }
    }
}

impl Cover {
    /// Builds the triangles that draw this cover on the tile at `pos`.
    pub fn render(&self, pos: [u16; 2]) -> (out: Vec<Vertex>)
        ensures
            out@ == self.spec_render(pos),
    {
        let mut out: Vec<Vertex> = Vec::new();
        match self {
            Cover::Empty => {},
            Cover::Tree => {
                extend_tris(&mut out, &Texture::Tree.generate_tris(pos));
            },
            Cover::TestBuilding => {
                extend_tris(&mut out, &Texture::TestBuilding.generate_tris(pos));
            },
            Cover::Road(quarters) => {
                let mut index: u8 = 0;
                while index < 4
                    invariant
                        index <= 4,
                        out@ == road_tris(*quarters, pos, index as int),
                    decreases 4 - index,
                {
                    let quarter: Road = quarters[index as usize];
                    if !matches!(quarter, Road::Empty) {
                        let direction = Direction4::new(index);
                        extend_tris(&mut out, &quarter.texture().generate_tris(direction, pos));
                    }
                    index += 1;
                }
            },
        }
        out
    }
}

/// The triangles that draw the first `count` quarters of a road.
pub open spec fn road_tris(quarters: [Road; 4], pos: [u16; 2], count: int) -> Seq<Vertex> {
    (if count >= 1 {
        quarter_tris(quarters, Direction4::North, pos)
    } else {
        Seq::empty()
    }) + (if count >= 2 {
        quarter_tris(quarters, Direction4::East, pos)
    } else {
        Seq::empty()
    }) + (if count >= 3 {
        quarter_tris(quarters, Direction4::South, pos)
    } else {
        Seq::empty()
    }) + (if count >= 4 {
        quarter_tris(quarters, Direction4::West, pos)
    } else {
        Seq::empty()
    })
}

/// One cell of the grid.
#[derive(Copy, Clone, Debug, PartialEq, Eq)]
pub struct Tile {
    pub ground: Ground,
    pub cover: Cover,
}

impl Tile {
    /// The triangles that draw this tile at `pos`: its ground, then its cover.
    pub open spec fn spec_render(&self, pos: [u16; 2]) -> Seq<Vertex> {
        self.ground.spec_texture().tris(pos) + self.cover.spec_render(pos)
    }

    /// A tile of bare grass.
    pub fn new() -> (tile: Self)
        ensures
            tile == (Tile { ground: Ground::Grass, cover: Cover::Empty }),
    {
        Self { ground: Ground::Grass, cover: Cover::Empty }
    }

    /// Builds the triangles that draw this tile at `pos`.
    pub fn render(&self, pos: [u16; 2]) -> (tris: Vec<Vertex>)
        ensures
            tris@ == self.spec_render(pos),
    {
        let mut tris: Vec<Vertex> = Vec::new();
        extend_tris(&mut tris, &self.ground.texture().generate_tris(pos));
        let mut cover_tris = self.cover.render(pos);
        tris.append(&mut cover_tris);
        tris
    }
}

} // verus!
