use vstd::prelude::*;
use crate::grid::{facing_of, sector_of, Cardinal, GridPosition};

verus! {

/// One frame of client input. Of the directional flags at most one takes effect,
/// in the order forward, backward, right, left. `sprint` and `jump` are carried
/// along but do not move the player; `sequence` numbers the frame.
#[derive(Clone, Copy, Debug, PartialEq, Eq, Structural)]
pub struct InputState {
    pub forward: bool,
    pub backward: bool,
    pub left: bool,
    pub right: bool,
    pub sprint: bool,
    pub jump: bool,
    pub attack: bool,
    pub cast_spell: bool,
    pub sequence: u64,
}

impl InputState {
    /// How many of the four directional flags are set.
    pub open spec fn pressed_count(self) -> int {
        (if self.forward { 1int } else { 0int }) + (if self.backward { 1int } else { 0int })
            + (if self.left { 1int } else { 0int }) + (if self.right { 1int } else { 0int })
    }

    /// This frame with only `forward` left among the directional flags.
    pub open spec fn forward_only(self) -> InputState {
        InputState { forward: true, backward: false, left: false, right: false, ..self }
    }

    /// This frame with only `backward` left among the directional flags.
    pub open spec fn backward_only(self) -> InputState {
        InputState { forward: false, backward: true, left: false, right: false, ..self }
    }

    /// This frame with only `right` left among the directional flags.
    pub open spec fn right_only(self) -> InputState {
        InputState { forward: false, backward: false, left: false, right: true, ..self }
    }
}

/// The direction one frame of input moves a player facing `facing`, if any:
/// forward along the facing, backward against it, right a quarter turn clockwise,
/// left a quarter turn counter-clockwise, the first flag set in that order winning.
pub open spec fn step_direction(facing: Cardinal, input: InputState) -> Option<Cardinal> {
    if input.forward {
        Some(facing)
    } else if input.backward {
        Some(facing.reversed())
    } else if input.right {
        Some(facing.cw())
    } else if input.left {
        Some(facing.ccw())
    } else {
        None
    }
}

/// The cell `(x, z)` reached from cell `(x, z)` by one frame of input, for a player
/// whose normalized yaw has the bit pattern `yaw_bits`.
pub open spec fn resolved_cell(x: int, z: int, yaw_bits: u32, input: InputState) -> (int, int) {
    match step_direction(sector_of(yaw_bits), input) {
        Some(d) => (x + d.dx(), z + d.dz()),
        None => (x, z),
    }
}

/// The direction, if any, that `input` moves a player facing `facing`.
pub fn movement_direction(facing: Cardinal, input: &InputState) -> (r: Option<Cardinal>)
    ensures
        r == step_direction(facing, *input),
{
    if input.forward {
        Some(facing)
    } else if input.backward {
        Some(facing.opposite())
    } else if input.right {
        Some(facing.clockwise())
    } else if input.left {
        Some(facing.counter_clockwise())
    } else {
        None
    }
}

/// The position a player at `position` reaches with one frame of input, given the bit
/// pattern of its yaw normalized into `[0, 2 * PI)`. The height is kept.
pub fn calculate_new_position(position: &GridPosition, yaw_bits: u32, input: &InputState) -> (r:
    GridPosition)
    requires
        position.can_step(),
    ensures
        (r.x as int, r.z as int) == resolved_cell(position.x as int, position.z as int, yaw_bits, *input),
        r.y == position.y,
{
    match movement_direction(facing_of(yaw_bits), input) {
        Some(d) => position.step(d),
        None => *position,
    }
}

/// A frame that sets exactly one directional flag moves the player by exactly one cell
/// along exactly one axis, whatever the facing.
pub proof fn lemma_single_flag_moves_one_cell(x: int, z: int, yaw_bits: u32, input: InputState)
    requires
        input.pressed_count() == 1,
    ensures
        ({
            let (nx, nz) = resolved_cell(x, z, yaw_bits, input);
            ||| nx == x && (nz == z + 1 || nz == z - 1)
            ||| nz == z && (nx == x + 1 || nx == x - 1)
        }),
{
}

/// A frame that sets no directional flag leaves the player where it is.
pub proof fn lemma_no_input_stays(x: int, z: int, yaw_bits: u32, input: InputState)
    requires
        !input.forward && !input.backward && !input.left && !input.right,
    ensures
        resolved_cell(x, z, yaw_bits, input) == (x, z),
{
}

/// The directional flags rank forward, backward, right, left: the highest one set
/// decides the move as if it were set alone.
pub proof fn lemma_input_priority(x: int, z: int, yaw_bits: u32, input: InputState)
    ensures
        input.forward ==> resolved_cell(x, z, yaw_bits, input) == resolved_cell(x, z, yaw_bits, input.forward_only()),
        !input.forward && input.backward ==> resolved_cell(x, z, yaw_bits, input) == resolved_cell(x, z, yaw_bits, input.backward_only()),
        !input.forward && !input.backward && input.right ==> resolved_cell(x, z, yaw_bits, input) == resolved_cell(x, z, yaw_bits, input.right_only()),
{
}

} // verus!
