use vstd::prelude::*;
use crate::grid::{in_bounds, rows_of};
use crate::gui::{tool_under, icon_tris, GUI, TOOL_COUNT};
use crate::interaction::{InteractionShape, TileInteraction};
use crate::mouse::{clamped, Mouse, MouseButton};
use crate::tile::{Cover, Ground, Tile};
use crate::vertex::Vertex;
use crate::world::{grid_tris, World};

verus! {

/// Everything that one sitting at the grid holds: the world, the pointer,
/// the tool palette and the active tool.
///
/// A session that is well formed has the pointer and the start of its drag
/// on the grid. A new session is, and every event leaves it so: an event can
/// be handled whatever came before it.
pub struct Session {
    world: World,
    mouse: Mouse,
    gui: GUI,
    interaction: InteractionShape,
}

impl Session {
    /// Whether the world is well formed and both the pointer and the start
    /// of its drag lie on the grid.
    pub closed spec fn wf(&self) -> bool {
        &&& self.world.wf()
        &&& in_bounds(self.world.tiles@, self.mouse.pos)
        &&& in_bounds(self.world.tiles@, self.mouse.click_start)
    }

    /// The tiles of the world, column by column.
    pub closed spec fn tiles(&self) -> Seq<Seq<Tile>> {
        self.world.tiles@
    }

    /// The number of columns of the world.
    pub open spec fn width(&self) -> nat {
        self.tiles().len()
    }

    /// The number of rows of the world.
    pub open spec fn height(&self) -> nat {
        rows_of(self.tiles())
    }

    /// The state of the pointer.
    pub closed spec fn pointer(&self) -> Mouse {
        self.mouse
    }

    /// The active tool.
    pub closed spec fn active(&self) -> InteractionShape {
        self.interaction
    }

    /// Whether the tool palette is open.
    pub closed spec fn palette_open(&self) -> bool {
        self.gui.is_open
    }

    /// A sitting as it begins: a fresh world, the pointer at rest on the
    /// first tile, the palette closed, and the brick brush in hand.
    pub fn new() -> (session: Self)
        ensures
            session.wf(),
            session.width() == 256,
            session.height() == 256,
            session.tiles() == Seq::new(
                256,
                |x: int|
                    Seq::new(256, |y: int| Tile { ground: Ground::Grass, cover: Cover::Empty }),
            ),
            session.pointer() == (Mouse {
                pos: [0, 0],
                click_start: [0, 0],
                gui_pos: [0, 0],
                is_left_clicking: false,
                is_middle_clicking: false,
                is_right_clicking: false,
            }),
            session.active() == InteractionShape::Rectangle(
                TileInteraction::ReplaceGround(Ground::Bricks),
            ),
            !session.palette_open(),
    {
        Self {
            world: World::new(),
            mouse: Mouse {
                pos: [0, 0],
                click_start: [0, 0],
                gui_pos: [0, 0],
                is_left_clicking: false,
                is_middle_clicking: false,
                is_right_clicking: false,
            },
            gui: GUI::new(),
            interaction: InteractionShape::Rectangle(
                TileInteraction::ReplaceGround(Ground::Bricks),
            ),
        }
    }

    /// The state of the pointer.
    pub fn mouse(&self) -> (mouse: Mouse)
        ensures
            mouse == self.pointer(),
    {
        self.mouse
    }

    /// The active tool.
    pub fn interaction(&self) -> (interaction: InteractionShape)
        ensures
            interaction == self.active(),
    {
        self.interaction
    }

    /// Whether the tool palette is open.
    pub fn is_gui_open(&self) -> (open: bool)
        ensures
            open == self.palette_open(),
    {
        self.gui.is_open
    }

    /// The world.
    pub fn world(&self) -> (world: &World)
        ensures
            world.tiles@ == self.tiles(),
            self.wf() ==> world.wf(),
    {
        &self.world
    }

    /// The pointer moved: it now rests on the tile of the world that is
    /// nearest to `pos`, and at `gui_pos` on the palette. A drag in progress
    /// keeps its start.
    pub fn cursor_moved(&mut self, pos: [i32; 2], gui_pos: [u8; 2])
        requires
            old(self).wf(),
        ensures
            final(self).wf(),
            final(self).pointer() == (Mouse {
                pos: [
                    clamped(pos[0], old(self).width()) as u16,
                    clamped(pos[1], old(self).height()) as u16,
                ],
                gui_pos,
                ..old(self).pointer()
            }),
            final(self).tiles() == old(self).tiles(),
            final(self).active() == old(self).active(),
            final(self).palette_open() == old(self).palette_open(),
    {
        self.mouse.set_pos(pos, gui_pos, &self.world);
    }

    /// The palette was asked to open or to close.
    pub fn toggle_gui(&mut self)
        requires
            old(self).wf(),
        ensures
            final(self).wf(),
            final(self).palette_open() == !old(self).palette_open(),
            final(self).pointer() == old(self).pointer(),
            final(self).tiles() == old(self).tiles(),
            final(self).active() == old(self).active(),
    {
        self.gui.is_open = !self.gui.is_open;
    }

    /// A button went down or came up.
    ///
    /// The pointer records it. Pressing the left button starts a drag where
    /// the pointer is. Letting it go ends the drag: with the palette open
    /// the click goes to the palette, which may hand out a tool and close;
    /// with the palette closed the active tool is applied to the world along
    /// the drag. Nothing else changes the world, so a drag that is never let
    /// go leaves the grid as it was.
    pub fn mouse_input(&mut self, button: MouseButton, pressed: bool)
        requires
            old(self).wf(),
        ensures
            final(self).wf(),
            final(self).pointer() == if button is Left && pressed {
                Mouse {
                    click_start: old(self).pointer().pos,
                    ..old(self).pointer().with_button(button, pressed)
                }
            } else {
                old(self).pointer().with_button(button, pressed)
            },
            final(self).tiles() == if button is Left && !pressed && !old(self).palette_open() {
                old(self).active().apply(old(self).tiles(), final(self).pointer())
            } else {
                old(self).tiles()
            },
            button is Left && !pressed && old(self).palette_open() ==> match tool_under(
                old(self).pointer().gui_pos,
            ) {
                Some(tool) => {
                    &&& final(self).active() == tool.interaction
                    &&& !final(self).palette_open()
                },
                None => {
                    &&& final(self).active() == old(self).active()
                    &&& final(self).palette_open()
                },
            },
            !(button is Left && !pressed && old(self).palette_open()) ==> {
                &&& final(self).active() == old(self).active()
                &&& final(self).palette_open() == old(self).palette_open()
            },
    {
        self.mouse.set_button(button, pressed);
        if matches!(button, MouseButton::Left) {
            if pressed {
                self.mouse.set_click_start();
            } else if self.gui.is_open {
                self.gui.click(&self.mouse, &mut self.interaction);
            } else {
                self.world.interact(&self.interaction, &self.mouse);
            }
        }
    }

    /// Builds the triangles that draw the world, followed, while the palette
    /// is closed, by the selection overlay of the active tool.
    pub fn render_world(&self) -> (tris: Vec<Vertex>)
        requires
            self.wf(),
        ensures
            tris@ == grid_tris(self.tiles(), self.width(), self.height()) + if self.palette_open() {
                Seq::empty()
            } else {
                self.active().select_tris(self.tiles(), self.pointer())
            },
    {
        self.world.render(&self.interaction, &self.mouse, self.gui.is_open)
    }

    /// Builds the triangles that draw the palette: its icons while it is
    /// open, nothing while it is closed.
    pub fn render_gui(&self) -> (tris: Vec<Vertex>)
        ensures
            tris@ == if self.palette_open() {
                icon_tris(TOOL_COUNT as nat)
            } else {
                Seq::empty()
            },
    {
        self.gui.render()
    }
}

} // verus!
