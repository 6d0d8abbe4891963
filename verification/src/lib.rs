//! The rules of a treasure hunt on a board that wraps round on both axes:
//! how a line typed by the player is read as a position, a move or a
//! command, and the arithmetic of places and distances on the torus.

pub mod board;
pub mod command;
pub mod constant;
pub mod error;
pub mod grammar;
pub mod menu;
pub mod numeric;
pub mod position;
pub mod settings;
pub mod space;
pub mod text;
pub mod zmove;

pub use board::{Board, Search};
pub use command::Command;
pub use error::BoardError;
pub use menu::SettingChoice;
pub use position::Position;
pub use settings::{Color, GameSettings};
pub use space::CoordinateSpace;
pub use zmove::{Direction, Zmove};
