use vstd::prelude::*;
use crate::interaction::{InteractionShape, TileInteraction};
use crate::mouse::Mouse;
use crate::overlay::lemma_flatten_step;
use crate::texture::Texture;
use crate::tile::{Cover, Ground, Road};
use crate::vertex::{extend_tris, Vertex};

verus! {

/// An entry of the tool palette: a tool and the icon that stands for it.
#[derive(Copy, Clone, Debug, PartialEq, Eq)]
pub struct Tool {
    pub interaction: InteractionShape,
    pub icon: Texture,
}

/// The number of tools on the palette.
pub const TOOL_COUNT: usize = 8;

/// The tool at place `index` of the palette, if the palette reaches that
/// far.
pub open spec fn tool_at(index: int) -> Option<Tool> {
    if index == 0 {
        Some(
            Tool {
                icon: Texture::Grass,
                interaction: InteractionShape::Rectangle(
                    TileInteraction::ReplaceGround(Ground::Grass),
                ),
            },
        )
    } else if index == 1 {
        Some(
            Tool {
                icon: Texture::Water,
                interaction: InteractionShape::Rectangle(
                    TileInteraction::ReplaceGround(Ground::Water),
                ),
            },
        )
    } else if index == 2 {
        Some(
            Tool {
                icon: Texture::Bricks,
                interaction: InteractionShape::Rectangle(
                    TileInteraction::ReplaceGround(Ground::Bricks),
                ),
            },
        )
    } else if index == 3 {
        Some(
            Tool {
                icon: Texture::Bomb,
                interaction: InteractionShape::Rectangle(TileInteraction::DemolishCover),
            },
        )
    } else if index == 4 {
        Some(
            Tool {
                icon: Texture::Tree,
                interaction: InteractionShape::Rectangle(TileInteraction::BuildCover(Cover::Tree)),
            },
        )
    } else if index == 5 {
        Some(
            Tool {
                icon: Texture::TestBuilding,
                interaction: InteractionShape::Dot(
                    TileInteraction::BuildCover(Cover::TestBuilding),
                ),
            },
        )
    } else if index == 6 {
        Some(
            Tool {
                icon: Texture::Gravel,
                interaction: InteractionShape::Rectangle(
                    TileInteraction::ReplaceGround(Ground::Gravel),
                ),
            },
        )
    } else if index == 7 {
        Some(
            Tool {
                icon: Texture::GravelRoadGUI,
                interaction: InteractionShape::RoadLine(Road::Gravel),
            },
        )
    } else {
        None
    }
}

/// Looks up the tool at place `index` of the palette. An index beyond the
/// palette finds nothing.
pub fn tool(index: usize) -> (found: Option<Tool>)
    ensures
        found == tool_at(index as int),
        found is Some <==> index < TOOL_COUNT,
{
    match index {
        0 => Some(
            Tool {
                icon: Texture::Grass,
                interaction: InteractionShape::Rectangle(
                    TileInteraction::ReplaceGround(Ground::Grass),
                ),
            },
        ),
        1 => Some(
            Tool {
                icon: Texture::Water,
                interaction: InteractionShape::Rectangle(
                    TileInteraction::ReplaceGround(Ground::Water),
                ),
            },
        ),
        2 => Some(
            Tool {
                icon: Texture::Bricks,
                interaction: InteractionShape::Rectangle(
                    TileInteraction::ReplaceGround(Ground::Bricks),
                ),
            },
        ),
        3 => Some(
            Tool {
                icon: Texture::Bomb,
                interaction: InteractionShape::Rectangle(TileInteraction::DemolishCover),
            },
        ),
        4 => Some(
            Tool {
                icon: Texture::Tree,
                interaction: InteractionShape::Rectangle(TileInteraction::BuildCover(Cover::Tree)),
            },
        ),
        5 => Some(
            Tool {
                icon: Texture::TestBuilding,
                interaction: InteractionShape::Dot(
                    TileInteraction::BuildCover(Cover::TestBuilding),
                ),
            },
        ),
        6 => Some(
            Tool {
                icon: Texture::Gravel,
                interaction: InteractionShape::Rectangle(
                    TileInteraction::ReplaceGround(Ground::Gravel),
                ),
            },
        ),
        7 => Some(
            Tool {
                icon: Texture::GravelRoadGUI,
                interaction: InteractionShape::RoadLine(Road::Gravel),
            },
        ),
        _ => None,
    }
}

/// The place on the screen of the icon at place `index` of the palette: the
/// icons stand eight to a row, and the first at column 4 of row 4.
pub open spec fn icon_pos(index: int) -> [u16; 2] {
    [(index % 8 + 4) as u16, (index / 8 + 4) as u16]
}

/// The icons of the palette, one by one: the triangles that draw the icon at
/// place `index`.
pub open spec fn icon_parts() -> spec_fn(int) -> Seq<Vertex> {
    |index: int|
        match tool_at(index) {
            Some(tool) => tool.icon.tris(icon_pos(index)),
            None => Seq::empty(),
        }
}

/// The triangles that draw the first `count` icons of the palette.
pub open spec fn icon_tris(count: nat) -> Seq<Vertex> {
    Seq::new(count, icon_parts()).flatten()
}

/// The tool whose icon lies at `gui_pos`, if one does.
pub open spec fn tool_under(gui_pos: [u8; 2]) -> Option<Tool> {
    if 3 < gui_pos[0] < 12 && 3 < gui_pos[1] < 12 {
        tool_at(gui_pos[0] - 4 + (gui_pos[1] - 4) * 8)
    } else {
        None
    }
}

/// The tool palette.
pub struct GUI {
    pub is_open: bool,
}

impl GUI {
    /// A closed palette.
    pub fn new() -> (gui: Self)
        ensures
            !gui.is_open,
    {
        Self { is_open: false }
    }

    /// Builds the triangles that draw the palette: the icons of all its
    /// tools while it is open, nothing while it is closed.
    pub fn render(&self) -> (tris: Vec<Vertex>)
        ensures
            tris@ == if self.is_open {
                icon_tris(TOOL_COUNT as nat)
            } else {
                Seq::empty()
            },
    {
        let mut tris: Vec<Vertex> = Vec::new();
        if self.is_open {
            let mut index: usize = 0;
            assert(Seq::new(0, icon_parts()).flatten() =~= Seq::empty());
            while index < TOOL_COUNT
                invariant
                    index <= TOOL_COUNT,
                    tris@ == icon_tris(index as nat),
                decreases TOOL_COUNT - index,
            {
                match tool(index) {
                    Some(tool) => {
                        let pos: [u16; 2] = [index as u16 % 8 + 4, index as u16 / 8 + 4];
                        assert(pos =~= icon_pos(index as int));
                        extend_tris(&mut tris, &tool.icon.generate_tris(pos));
                    },
                    None => {},
                }
                proof {
                    lemma_flatten_step(icon_parts(), index as nat);
                }
                index += 1;
            }
        }
        tris
    }

    /// Handles a click on the palette. Where the pointer is over a tool's
    /// icon, that tool becomes the active one and the palette closes; a
    /// click anywhere else changes nothing.
    pub fn click(&mut self, mouse: &Mouse, interaction: &mut InteractionShape)
        ensures
            match tool_under(mouse.gui_pos) {
                Some(tool) => {
                    &&& *final(interaction) == tool.interaction
                    &&& !final(self).is_open
                },
                None => {
                    &&& *final(interaction) == *old(interaction)
                    &&& final(self).is_open == old(self).is_open
                },
            },
    {
        if mouse.gui_pos[0] > 3 && mouse.gui_pos[0] < 12 && mouse.gui_pos[1] > 3
            && mouse.gui_pos[1] < 12 {
            let index: u8 = mouse.gui_pos[0] - 4 + (mouse.gui_pos[1] - 4) * 8;
            match tool(index as usize) {
                Some(valid) => {
                    *interaction = valid.interaction;
                    self.is_open = false;
                },
                None => {},
            }
        }
    }
}

} // verus!
