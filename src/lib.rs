//! Small building blocks around a toy game entity: points, a movable player
//! driven by actions, a named person, and the decisions of a guessing game.

pub mod functions;
pub mod game;
pub mod player;
pub mod structs;
pub mod traits;
pub mod utils;

pub use functions::{add, greeting};
pub use game::{draw_secret, extra_move, read_guess, roll_extra_move, take_turn, Turn};
pub use player::{Balance, Player, PlayerAction, Sex};
pub use structs::Person;
pub use traits::Movable;
pub use utils::{calc_length, get_slice, longest, move_to_start, Point};
