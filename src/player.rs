use vstd::prelude::*;
use crate::grid::GridPosition;
use crate::movement::{calculate_new_position, resolved_cell, InputState};

verus! {

/// Three `f32` components held as their bit patterns, as the client reported them.
/// The rotation's `y` is the yaw in radians.
#[derive(Clone, Copy, Debug, PartialEq, Eq, Structural)]
pub struct Vector3 {
    pub x: u32,
    pub y: u32,
    pub z: u32,
}

/// The authoritative state of one player.
#[derive(Clone, Debug)]
pub struct PlayerData {
    pub position: GridPosition,
    pub rotation: Vector3,
    pub current_animation: String,
    pub input: InputState,
    pub last_input_seq: u64,
    pub is_teleporting: bool,
    pub is_moving: bool,
    pub is_running: bool,
    pub is_attacking: bool,
    pub is_casting: bool,
}

/// Takes one frame of client input into `player`: moves it one cell as the input and
/// its facing decide, marks the move as a teleport, stores the client's rotation and
/// animation as given, records the frame and its sequence number, clears the
/// continuous-motion flags and copies the attack and cast flags. `yaw_bits` is the bit
/// pattern of `client_rot.y` normalized into `[0, 2 * PI)`.
pub fn update_input_state(
    player: &mut PlayerData,
    input: InputState,
    client_rot: Vector3,
    yaw_bits: u32,
    client_animation: String,
)
    requires
        old(player).position.can_step(),
    ensures
        (final(player).position.x as int, final(player).position.z as int) == resolved_cell(
            old(player).position.x as int,
            old(player).position.z as int,
            yaw_bits,
            input,
        ),
        final(player).position.y == old(player).position.y,
        final(player).rotation == client_rot,
        final(player).current_animation@ == client_animation@,
        final(player).input == input,
        final(player).last_input_seq == input.sequence,
        final(player).is_teleporting,
        !final(player).is_moving,
        !final(player).is_running,
        final(player).is_attacking == input.attack,
        final(player).is_casting == input.cast_spell,
{
    let new_position = calculate_new_position(&player.position, yaw_bits, &input);
    player.is_teleporting = true;
    player.position = new_position;
    player.rotation = client_rot;
    player.current_animation = client_animation;
    player.input = input;
    player.last_input_seq = input.sequence;
    player.is_moving = false;
    player.is_running = false;
    player.is_attacking = input.attack;
    player.is_casting = input.cast_spell;
}

} // verus!
