use crate::board::Board;
use vstd::prelude::*;

verus! {

/// A colour of the terminal: one of the eight named ones, one of the 256
/// of the extended palette, or red, green and blue.
#[derive(Debug, Clone, Copy, PartialEq, Eq, Structural)]
pub enum Color {
    Black,
    Blue,
    Green,
    Red,
    Cyan,
    Magenta,
    Yellow,
    White,
    Ansi256(u8),
    Rgb(u8, u8, u8),
}

/// What a game starts from.
#[derive(Debug, Clone, Copy, PartialEq, Eq, Structural)]
pub struct GameSettings {
    pub seed: u64,
    pub player_color: Color,
    pub player_tile: char,
    pub board_width: u32,
    pub board_height: u32,
}

impl GameSettings {
    /// The settings of a game for which the player asked nothing.
    pub fn get_default_settings() -> (r: GameSettings)
        ensures
            r == (GameSettings {
                seed: 2,
                player_color: Color::Red,
                player_tile: '@',
                board_width: 15,
                board_height: 15,
            }),
    {
        GameSettings {
            seed: Board::DEFAULT_SEED,
            player_color: Board::DEFAULT_PLAYER_COLOR,
            player_tile: Board::DEFAULT_PLAYER_TILE,
            board_width: Board::DEFAULT_BOARD_WIDTH,
            board_height: Board::DEFAULT_BOARD_HEIGHT,
        }
    }
}

} // verus!
