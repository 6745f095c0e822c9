//! Grid-aligned player movement: which way a facing angle and a frame of input
//! move a player, and how a player's record takes in one input frame.
pub mod grid;
pub mod movement;
pub mod player;

pub use grid::{facing_of, Cardinal, GridPosition, GRID_CELL_SIZE};
pub use movement::{calculate_new_position, movement_direction, InputState};
pub use player::{update_input_state, PlayerData, Vector3};
