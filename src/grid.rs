use vstd::prelude::*;

verus! {

/// Length of one movement step, in world units.
pub const GRID_CELL_SIZE: i64 = 1;

/// Bit pattern of the `f32` value `PI * 0.25` (`PI` being `std::f32::consts::PI`):
/// where the East sector starts.
///
/// For non-negative `f32` values that are not NaN, the order of the bit patterns read
/// as unsigned integers is the order of the values, so a normalized yaw is placed in
/// its sector by comparing its bit pattern with these bounds.
pub const EAST_START_BITS: u32 = 0x3f49_0fdb;

/// Bit pattern of the `f32` value `PI * 0.75`: where the South sector starts.
pub const SOUTH_START_BITS: u32 = 0x4016_cbe4;

/// Bit pattern of the `f32` value `PI * 1.25`: where the West sector starts.
pub const WEST_START_BITS: u32 = 0x407b_53d2;

/// Bit pattern of the `f32` value `PI * 1.75`: where the North sector starts again.
pub const NORTH_WRAP_BITS: u32 = 0x40af_ede0;

/// One of the four grid axes a player can face or step along.
/// North is toward -Z, East toward +X, South toward +Z, West toward -X.
#[derive(Clone, Copy, Debug, PartialEq, Eq, Structural)]
pub enum Cardinal {
    North,
    East,
    South,
    West,
}

impl Cardinal {
    /// The direction a quarter turn clockwise from this one.
    pub open spec fn cw(self) -> Cardinal {
        match self {
            Cardinal::North => Cardinal::East,
            Cardinal::East => Cardinal::South,
            Cardinal::South => Cardinal::West,
            Cardinal::West => Cardinal::North,
        }
    }

    /// The direction a quarter turn counter-clockwise from this one.
    pub open spec fn ccw(self) -> Cardinal {
        match self {
            Cardinal::North => Cardinal::West,
            Cardinal::East => Cardinal::North,
            Cardinal::South => Cardinal::East,
            Cardinal::West => Cardinal::South,
        }
    }

    /// The direction a half turn from this one.
    pub open spec fn reversed(self) -> Cardinal {
        self.cw().cw()
    }

    /// Change of the x coordinate, in cells, for one step this way.
    pub open spec fn dx(self) -> int {
        match self {
            Cardinal::East => 1,
            Cardinal::West => -1,
            _ => 0,
        }
    }

    /// Change of the z coordinate, in cells, for one step this way.
    pub open spec fn dz(self) -> int {
        match self {
            Cardinal::North => -1,
            Cardinal::South => 1,
            _ => 0,
        }
    }

    pub fn clockwise(self) -> (r: Cardinal)
        ensures
            r == self.cw(),
    {
        match self {
            Cardinal::North => Cardinal::East,
            Cardinal::East => Cardinal::South,
            Cardinal::South => Cardinal::West,
            Cardinal::West => Cardinal::North,
        }
    }

    pub fn counter_clockwise(self) -> (r: Cardinal)
        ensures
            r == self.ccw(),
    {
        match self {
            Cardinal::North => Cardinal::West,
            Cardinal::East => Cardinal::North,
            Cardinal::South => Cardinal::East,
            Cardinal::West => Cardinal::South,
        }
    }

    pub fn opposite(self) -> (r: Cardinal)
        ensures
            r == self.reversed(),
    {
        match self {
            Cardinal::North => Cardinal::South,
            Cardinal::East => Cardinal::West,
            Cardinal::South => Cardinal::North,
            Cardinal::West => Cardinal::East,
        }
    }
}

/// The sector a normalized yaw falls in, given as the bit pattern of a non-negative
/// `f32` angle in radians. Each bound is compared with a strict `<` in ascending
/// order, so a yaw exactly on a bound belongs to the sector that starts there.
pub open spec fn sector_of(yaw_bits: u32) -> Cardinal {
    if yaw_bits < EAST_START_BITS {
        Cardinal::North
    } else if yaw_bits < SOUTH_START_BITS {
        Cardinal::East
    } else if yaw_bits < WEST_START_BITS {
        Cardinal::South
    } else if yaw_bits < NORTH_WRAP_BITS {
        Cardinal::West
    } else {
        Cardinal::North
    }
}

/// The cardinal direction a player faces, from the bit pattern of its yaw normalized
/// into `[0, 2 * PI)`.
pub fn facing_of(yaw_bits: u32) -> (r: Cardinal)
    ensures
        r == sector_of(yaw_bits),
{
    if yaw_bits < EAST_START_BITS {
        Cardinal::North
    } else if yaw_bits < SOUTH_START_BITS {
        Cardinal::East
    } else if yaw_bits < WEST_START_BITS {
        Cardinal::South
    } else if yaw_bits < NORTH_WRAP_BITS {
        Cardinal::West
    } else {
        Cardinal::North
    }
}

/// A yaw exactly on a sector bound (`PI / 4`, `3 * PI / 4`, `5 * PI / 4`, `7 * PI / 4`)
/// falls in the sector that starts there, and the `f32` value just below it in the
/// sector that ends there.
pub proof fn lemma_boundaries_open_next_sector()
    ensures
        sector_of(EAST_START_BITS) == Cardinal::East,
        sector_of(SOUTH_START_BITS) == Cardinal::South,
        sector_of(WEST_START_BITS) == Cardinal::West,
        sector_of(NORTH_WRAP_BITS) == Cardinal::North,
        sector_of((EAST_START_BITS - 1) as u32) == Cardinal::North,
        sector_of((SOUTH_START_BITS - 1) as u32) == Cardinal::East,
        sector_of((WEST_START_BITS - 1) as u32) == Cardinal::South,
        sector_of((NORTH_WRAP_BITS - 1) as u32) == Cardinal::West,
{
}

/// A player's place on the grid. `x` and `z` count cells of `GRID_CELL_SIZE`;
/// `y` is the bit pattern of the `f32` height, which movement never changes.
#[derive(Clone, Copy, Debug, PartialEq, Eq, Structural)]
pub struct GridPosition {
    pub x: i64,
    pub y: u32,
    pub z: i64,
}

impl GridPosition {
    /// One step in any direction stays within `i64`.
    pub open spec fn can_step(self) -> bool {
        &&& i64::MIN < self.x < i64::MAX
        &&& i64::MIN < self.z < i64::MAX
    }

    /// The position one cell away in direction `d`.
    pub fn step(self, d: Cardinal) -> (r: GridPosition)
        requires
            self.can_step(),
        ensures
            r.x == self.x + d.dx(),
            r.z == self.z + d.dz(),
            r.y == self.y,
    {
        match d {
            Cardinal::North => GridPosition { z: self.z - GRID_CELL_SIZE, ..self },
            Cardinal::East => GridPosition { x: self.x + GRID_CELL_SIZE, ..self },
            Cardinal::South => GridPosition { z: self.z + GRID_CELL_SIZE, ..self },
            Cardinal::West => GridPosition { x: self.x - GRID_CELL_SIZE, ..self },
        }
    }
}

} // verus!
