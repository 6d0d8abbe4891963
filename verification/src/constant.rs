use crate::board::Board;
use crate::settings::Color;
use vstd::prelude::*;

verus! {

impl Board {
    /// The width of the board where none is asked for.
    pub const DEFAULT_BOARD_WIDTH: u32 = 15;

    /// The height of the board where none is asked for.
    pub const DEFAULT_BOARD_HEIGHT: u32 = 15;

    /// The colour of the board's frame.
    pub const BOARD_COLOR: Color = Color::White;

    /// The tile of a cell that holds nothing.
    pub const WATER_TILE: char = '~';

    /// The player's tile where none is asked for.
    pub const DEFAULT_PLAYER_TILE: char = '@';

    /// The tile of the treasure.
    pub const TREASURE_TILE: char = 'X';

    /// The seed of the placement where none is asked for.
    pub const DEFAULT_SEED: u64 = 2;

    /// The player's colour where none is asked for.
    pub const DEFAULT_PLAYER_COLOR: Color = Color::Red;

    /// The longest move.
    pub const MOVE_MAX_DISTANCE: u32 = 4;
}

} // verus!
