use vstd::prelude::*;

verus! {

/// One of the four compass directions, in the order in which a road's
/// quarters are stored.
#[derive(Copy, Clone, Debug, PartialEq, Eq, Structural)]
pub enum Direction4 {
    North,
    East,
    South,
    West,
}

/// The axis along which a line is dragged.
#[derive(Copy, Clone, Debug, PartialEq, Eq, Structural)]
pub enum Direction2 {
    NorthSouth,
    EastWest,
}

impl Direction4 {
    /// The index of this direction in a quarter array.
    pub open spec fn int_val(self) -> u8 {
        match self {
            Direction4::North => 0,
            Direction4::East => 1,
            Direction4::South => 2,
            Direction4::West => 3,
        }
    }

    /// The direction stored at index `int_val` of a quarter array.
    pub fn new(int_val: u8) -> (d: Self)
        requires
            int_val < 4,
        ensures
            d.int_val() == int_val,
    {
        if int_val == 0 {
            Direction4::North
        } else if int_val == 1 {
            Direction4::East
        } else if int_val == 2 {
            Direction4::South
        } else {
            Direction4::West
        }
    }

    /// The index of this direction in a quarter array: North 0, East 1,
    /// South 2, West 3.
    pub fn get_int_val(self) -> (v: u8)
        ensures
            v == self.int_val(),
            v < 4,
    {
        match self {
            Direction4::North => 0,
            Direction4::East => 1,
            Direction4::South => 2,
            Direction4::West => 3,
        }
    }
}

} // verus!
