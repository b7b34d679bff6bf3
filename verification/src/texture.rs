use vstd::prelude::*;
use crate::direction::Direction4;
use crate::vertex::Vertex;

verus! {

/// The corner of the square that the atlas cell `id` covers when drawn on the
/// tile at `pos`. `east` picks the right edge over the left, `south` the far
/// edge over the near one. The atlas is sixteen cells wide, numbered row by
/// row from its top, while texture coordinates count from its bottom.
pub open spec fn corner(id: u8, pos: [u16; 2], east: bool, south: bool) -> Vertex {
    Vertex {
        position: [
            ((pos[0] + if east { 1int } else { 0int }) * 16) as u32,
            ((pos[1] + if south { 1int } else { 0int }) * 16) as u32,
        ],
        texture_position: [
            (id % 16 + if east { 1int } else { 0int }) as u8,
            (16 - id / 16 - if south { 1int } else { 0int }) as u8,
        ],
    }
}

/// The two triangles that draw the atlas cell `id` on the tile at `pos`.
pub open spec fn tile_tris(id: u8, pos: [u16; 2]) -> Seq<Vertex> {
    seq![
        corner(id, pos, false, false),
        corner(id, pos, true, false),
        corner(id, pos, false, true),
        corner(id, pos, true, false),
        corner(id, pos, true, true),
        corner(id, pos, false, true),
    ]
}

/// Builds the two triangles that draw the atlas cell `id` on the tile at
/// `pos`.
pub fn generate_tris_from_id(id: u8, pos: [u16; 2]) -> (tris: [Vertex; 6])
    ensures
        tris@ == tile_tris(id, pos),
{
    let x_start: u32 = pos[0] as u32 * 16;
    let x_end: u32 = (pos[0] as u32 + 1) * 16;
    let y_start: u32 = pos[1] as u32 * 16;
    let y_end: u32 = (pos[1] as u32 + 1) * 16;

    let texture_column: u8 = id % 16;
    let texture_row: u8 = id / 16;
    let texture_x_start: u8 = texture_column;
    let texture_y_start: u8 = 16 - (texture_row + 1);
    let texture_x_end: u8 = texture_column + 1;
    let texture_y_end: u8 = 16 - texture_row;

    let tris = [
        Vertex {
            position: [x_start, y_start],
            texture_position: [texture_x_start, texture_y_end],
        },
        Vertex { position: [x_end, y_start], texture_position: [texture_x_end, texture_y_end] },
        Vertex {
            position: [x_start, y_end],
            texture_position: [texture_x_start, texture_y_start],
        },
        Vertex { position: [x_end, y_start], texture_position: [texture_x_end, texture_y_end] },
        Vertex { position: [x_end, y_end], texture_position: [texture_x_end, texture_y_start] },
        Vertex {
            position: [x_start, y_end],
            texture_position: [texture_x_start, texture_y_start],
        },
    ];
    assert(tris@ =~= tile_tris(id, pos));
    tris
}

/// A cell of the atlas that is drawn the same way wherever it appears.
#[derive(Copy, Clone, Debug, PartialEq, Eq, Structural)]
pub enum Texture {
    Grass,
    Water,
    Bricks,
    Select,
    Tree,
    TestBuilding,
    SelectBuildable,
    SelectUnbuildable,
    SelectDestroy,
    Bomb,
    Gravel,
    GravelRoadGUI,
    LeafLitter,
    Swamp,
    Sand,
}

impl Texture {
    /// The atlas cell that holds this texture.
    pub open spec fn texture_id(self) -> u8 {
        match self {
            Texture::Grass => 0x01,
            Texture::Water => 0x02,
            Texture::Bricks => 0x03,
            Texture::Select => 0x04,
            Texture::Tree => 0x05,
            Texture::TestBuilding => 0x06,
            Texture::SelectBuildable => 0x07,
            Texture::SelectUnbuildable => 0x08,
            Texture::SelectDestroy => 0x09,
            Texture::Bomb => 0x0A,
            Texture::Gravel => 0x0B,
            Texture::GravelRoadGUI => 0x10,
            Texture::LeafLitter => 0x11,
            Texture::Swamp => 0x12,
            Texture::Sand => 0x13,
        }
    }

    /// The triangles that draw this texture on the tile at `pos`.
    pub open spec fn tris(self, pos: [u16; 2]) -> Seq<Vertex> {
        tile_tris(self.texture_id(), pos)
    }

    /// Looks up the atlas cell that holds this texture.
    pub fn get_texture_id(self) -> (id: u8)
        ensures
            id == self.texture_id(),
    {
        match self {
            Texture::Grass => 0x01,
            Texture::Water => 0x02,
            Texture::Bricks => 0x03,
            Texture::Select => 0x04,
            Texture::Tree => 0x05,
            Texture::TestBuilding => 0x06,
            Texture::SelectBuildable => 0x07,
            Texture::SelectUnbuildable => 0x08,
            Texture::SelectDestroy => 0x09,
            Texture::Bomb => 0x0A,
            Texture::Gravel => 0x0B,
            Texture::GravelRoadGUI => 0x10,
            Texture::LeafLitter => 0x11,
            Texture::Swamp => 0x12,
            Texture::Sand => 0x13,
        }
    }

    /// Builds the two triangles that draw this texture on the tile at `pos`.
    pub fn generate_tris(self, pos: [u16; 2]) -> (tris: [Vertex; 6])
        ensures
            tris@ == self.tris(pos),
    {
        generate_tris_from_id(self.get_texture_id(), pos)
    }
}

/// A run of four atlas cells that hold one texture as seen from each compass
/// direction, North first.
#[derive(Copy, Clone, Debug, PartialEq, Eq, Structural)]
pub enum Texture4Directional {
    GravelRoad,
}

impl Texture4Directional {
    /// The atlas cell that holds the northern view of this texture.
    pub open spec fn texture_id(self) -> u8 {
        match self {
            Texture4Directional::GravelRoad => 0x0C,
        }
    }

    /// The triangles that draw this texture, as seen from `direction`, on the
    /// tile at `pos`.
    pub open spec fn tris(self, direction: Direction4, pos: [u16; 2]) -> Seq<Vertex> {
        tile_tris((self.texture_id() + direction.int_val()) as u8, pos)
    }

    /// Looks up the atlas cell that holds the northern view of this texture.
    pub fn get_texture_id(self) -> (id: u8)
        ensures
            id == self.texture_id(),
            id <= 0xFC,
    {
        match self {
            Texture4Directional::GravelRoad => 0x0C,
        }
    }

    /// Builds the two triangles that draw this texture, as seen from
    /// `direction`, on the tile at `pos`.
    pub fn generate_tris(self, direction: Direction4, pos: [u16; 2]) -> (tris: [Vertex; 6])
        ensures
            tris@ == self.tris(direction, pos),
    {
        generate_tris_from_id(self.get_texture_id() + direction.get_int_val(), pos)
    }
}

} // verus!
