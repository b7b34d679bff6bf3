use vstd::prelude::*;
use crate::direction::Direction2;
use crate::grid::in_bounds;
use crate::world::World;

verus! {

/// Where the pointer is and where the drag in progress began, both in grid
/// coordinates, and which buttons are held.
#[derive(Copy, Clone, Debug, PartialEq, Eq)]
pub struct Mouse {
    pub pos: [u16; 2],
    pub click_start: [u16; 2],
    pub gui_pos: [u8; 2],
    pub is_left_clicking: bool,
    pub is_middle_clicking: bool,
    pub is_right_clicking: bool,
}

/// A button of the pointing device.
#[derive(Copy, Clone, Debug, PartialEq, Eq, Structural)]
pub enum MouseButton {
    Left,
    Middle,
    Right,
    /// Any further button. It is taken for the left one.
    Other,
}

/// The distance between two coordinates.
pub open spec fn distance(a: u16, b: u16) -> int {
    if a <= b {
        b - a
    } else {
        a - b
    }
}

/// The coordinate below `limit` that is nearest to `value`.
pub open spec fn clamped(value: i32, limit: nat) -> int {
    if value < 0 {
        0
    } else if value >= limit {
        limit - 1
    } else {
        value as int
    }
}

impl Mouse {
    /// Moves the pointer to the place of the world that is nearest to `pos`,
    /// and to `gui_pos` on the tool palette.
    pub fn set_pos(&mut self, pos: [i32; 2], gui_pos: [u8; 2], world: &World)
        requires
            world.wf(),
        ensures
            *final(self) == (Mouse {
                pos: [
                    clamped(pos[0], world.width()) as u16,
                    clamped(pos[1], world.height()) as u16,
                ],
                gui_pos,
                ..*old(self)
            }),
            in_bounds(world.tiles@, final(self).pos),
    {
        let x_limit: i32 = world.get_width() as i32 - 1;
        let y_limit: i32 = world.get_height() as i32 - 1;
        let x: i32 = if pos[0] < 0 {
            0
        } else if pos[0] > x_limit {
            x_limit
        } else {
            pos[0]
        };
        let y: i32 = if pos[1] < 0 {
            0
        } else if pos[1] > y_limit {
            y_limit
        } else {
            pos[1]
        };
        self.pos = [x as u16, y as u16];
        self.gui_pos = gui_pos;
    }

    /// The axis that a line dragged from `click_start` to `pos` follows:
    /// East-West where the drag went further sideways than up or down,
    /// North-South otherwise, a tie included.
    pub open spec fn line_drag_direction(&self) -> Direction2 {
        if distance(self.pos[0], self.click_start[0]) > distance(
            self.pos[1],
            self.click_start[1],
        ) {
            Direction2::EastWest
        } else {
            Direction2::NorthSouth
        }
    }

    /// This state with `button` held or let go. A button that is none of
    /// the three named ones counts as the left one.
    pub open spec fn with_button(self, button: MouseButton, pressed: bool) -> Mouse {
        match button {
            MouseButton::Left | MouseButton::Other => Mouse { is_left_clicking: pressed, ..self },
            MouseButton::Middle => Mouse { is_middle_clicking: pressed, ..self },
            MouseButton::Right => Mouse { is_right_clicking: pressed, ..self },
        }
    }

    /// Records that `button` went down or came up.
    pub fn set_button(&mut self, button: MouseButton, pressed: bool)
        ensures
            *final(self) == old(self).with_button(button, pressed),
    {
        match button {
            MouseButton::Left | MouseButton::Other => {
                self.is_left_clicking = pressed;
            },
            MouseButton::Middle => {
                self.is_middle_clicking = pressed;
            },
            MouseButton::Right => {
                self.is_right_clicking = pressed;
            },
        }
    }

    /// Marks the pointer's place as the start of a drag.
    pub fn set_click_start(&mut self)
        ensures
            *final(self) == (Mouse { click_start: old(self).pos, ..*old(self) }),
    {
        self.click_start = self.pos;
    }

    /// Tells the axis that a line dragged from `click_start` to `pos`
    /// follows.
    pub fn get_line_drag_direction(&self) -> (direction: Direction2)
        ensures
            direction == self.line_drag_direction(),
    {
        let dx: u16 = if self.pos[0] <= self.click_start[0] {
            self.click_start[0] - self.pos[0]
        } else {
            self.pos[0] - self.click_start[0]
        };
        let dy: u16 = if self.pos[1] <= self.click_start[1] {
            self.click_start[1] - self.pos[1]
        } else {
            self.pos[1] - self.click_start[1]
        };
        if dx > dy {
            Direction2::EastWest
        } else {
            Direction2::NorthSouth
        }
    }
}

} // verus!
