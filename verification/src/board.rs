use crate::error::{BoardError, ErrorView};
use crate::position::{axis_dist, dist_legal, lemma_dists_fit, shortest_dist, Position};
use crate::settings::{Color, GameSettings};
use crate::space::CoordinateSpace;
use rand::rngs::StdRng;
use rand::{RngCore, SeedableRng};
use vstd::prelude::*;

verus! {

/// `rand::rngs::StdRng`: the generator behind every random placement.
/// Nothing is known of its state.
#[verifier::external_type_specification]
#[verifier::external_body]
pub struct ExStdRng(StdRng);

/// Calls `SeedableRng::seed_from_u64` for `StdRng`. Nothing is claimed of
/// the generator that comes back.
#[verifier::external_body]
pub(crate) fn seeded_rng(seed: u64) -> StdRng {
    StdRng::seed_from_u64(seed)
}

/// Calls `RngCore::next_u32` on an `StdRng`. Nothing is claimed of the
/// number drawn nor of the generator afterwards.
#[verifier::external_body]
pub(crate) fn draw_u32(rng: &mut StdRng) -> u32 {
    rng.next_u32()
}

/// What a search of the player's cell brings.
#[derive(Debug, Clone, Copy, PartialEq, Eq, Structural)]
pub enum Search {
    /// The treasure lies here.
    Treasure,
    /// Nothing lies here; the treasure is this far away on the torus.
    Nothing(u32),
}

/// The state of one game: where the player and the treasure are, how the
/// player is drawn, and which cells the player has searched.
#[derive(Debug)]
pub struct Board {
    pub space: CoordinateSpace,
    pub player_color: Color,
    pub player_coordinates: Position,
    pub treasure_coordinates: Position,
    pub rng: StdRng,
    pub player_tile: char,
    pub tracker: Vec<Vec<bool>>,
}

/// The message for a teleport that is longer than the longest move.
pub open spec fn too_far_message() -> Seq<char> {
    "You can't do this move, it's too far"@
}

/// A tracker of `width` columns of `height` entries each.
pub open spec fn tracker_fits(tracker: Seq<Vec<bool>>, width: u32, height: u32) -> bool {
    &&& tracker.len() == width
    &&& forall|x: int| 0 <= x < tracker.len() ==> (#[trigger] tracker[x])@.len() == height
}

impl Board {
    /// Both the player and the treasure stand on the board, and the
    /// tracker has one column for each `x` and in it one entry for each `y`.
    pub open spec fn wf(&self) -> bool {
        &&& self.space.wf()
        &&& self.space.contains(self.player_coordinates)
        &&& self.space.contains(self.treasure_coordinates)
        &&& tracker_fits(self.tracker@, self.space.width, self.space.height)
    }

    /// Whether the cell `(x, y)` has been searched.
    pub open spec fn searched(&self, x: int, y: int) -> bool {
        self.tracker@[x]@[y]
    }

    /// Whether `other` differs from this board in nothing but the player's
    /// place and the tracker.
    pub open spec fn same_game(&self, other: &Board) -> bool {
        &&& other.space == self.space
        &&& other.player_color == self.player_color
        &&& other.treasure_coordinates == self.treasure_coordinates
        &&& other.rng == self.rng
        &&& other.player_tile == self.player_tile
    }

    /// The distances on both axes between the player and `target`.
    pub open spec fn dists_to(&self, target: Position) -> (u32, u32) {
        (
            axis_dist(self.player_coordinates.x, target.x) as u32,
            axis_dist(self.player_coordinates.y, target.y) as u32,
        )
    }

    /// Whether the board is well formed: whether the player and the
    /// treasure stand on it and the tracker has its dimensions.
    pub fn is_well_formed(&self) -> (r: bool)
        ensures
            r == self.wf(),
    {
        if self.space.width < 1 || self.space.height < 1 {
            return false;
        }
        if !self.space.is_in_board(&self.player_coordinates) || !self.space.is_in_board(
            &self.treasure_coordinates,
        ) {
            return false;
        }
        if self.tracker.len() != self.space.width as usize {
            return false;
        }
        let mut x: usize = 0;
        while x < self.tracker.len()
            invariant
                x <= self.tracker@.len(),
                forall|i: int|
                    0 <= i < x ==> (#[trigger] self.tracker@[i])@.len() == self.space.height,
            decreases self.tracker.len() - x,
        {
            if self.tracker[x].len() != self.space.height as usize {
                return false;
            }
            x += 1;
        }
        true
    }

    /// How the cell `(x, y)` is drawn: the player in the player's colour
    /// and tile, else the treasure in yellow, else water, in the player's
    /// colour where the cell was searched and in blue where it was not.
    pub open spec fn tile(&self, x: u32, y: u32) -> (Color, char) {
        if x == self.player_coordinates.x && y == self.player_coordinates.y {
            (self.player_color, self.player_tile)
        } else if x == self.treasure_coordinates.x && y == self.treasure_coordinates.y {
            (Color::Yellow, 'X')
        } else if self.searched(x as int, y as int) {
            (self.player_color, '~')
        } else {
            (Color::Blue, '~')
        }
    }

    /// The colour and the tile of the cell `(x, y)`.
    pub fn tile_at(&self, x: u32, y: u32) -> (r: (Color, char))
        requires
            self.wf(),
            x < self.space.width,
            y < self.space.height,
        ensures
            r == self.tile(x, y),
    {
        if x == self.player_coordinates.x && y == self.player_coordinates.y {
            (self.player_color, self.player_tile)
        } else if x == self.treasure_coordinates.x && y == self.treasure_coordinates.y {
            (Color::Yellow, Board::TREASURE_TILE)
        } else if self.tracker[x as usize][y as usize] {
            (self.player_color, Board::WATER_TILE)
        } else {
            (Color::Blue, Board::WATER_TILE)
        }
    }

    /// Draws a cell of the board: two numbers from `rng`, wrapped onto it.
    /// Whatever is drawn, the cell lies on the board.
    pub fn random_coordinates(space: &CoordinateSpace, rng: &mut StdRng) -> (r: Position)
        requires
            space.wf(),
        ensures
            space.contains(r),
    {
        let x = draw_u32(rng);
        let y = draw_u32(rng);
        space.coordinate_modulo((x as i64, y as i64))
    }

    /// A tracker for a board of the given dimensions, with no cell
    /// searched.
    pub fn empty_tracker(width: u32, height: u32) -> (tracker: Vec<Vec<bool>>)
        ensures
            tracker_fits(tracker@, width, height),
            forall|x: int, y: int|
                0 <= x < width && 0 <= y < height ==> !(#[trigger] tracker@[x]@[y]),
    {
        let mut tracker: Vec<Vec<bool>> = Vec::new();
        let mut x: u32 = 0;
        while x < width
            invariant
                x <= width,
                tracker_fits(tracker@, x, height),
                forall|i: int, j: int|
                    0 <= i < x && 0 <= j < height ==> !(#[trigger] tracker@[i]@[j]),
            decreases width - x,
        {
            let mut column: Vec<bool> = Vec::new();
            let mut y: u32 = 0;
            while y < height
                invariant
                    y <= height,
                    column@.len() == y,
                    forall|j: int| 0 <= j < y ==> !(#[trigger] column@[j]),
                decreases height - y,
            {
                column.push(false);
                y += 1;
            }
            tracker.push(column);
            x += 1;
        }
        tracker
    }

    /// Starts a game: the generator is seeded from the settings, the
    /// player is placed first and the treasure second, and no cell is
    /// searched. No move on the board is longer than `MOVE_MAX_DISTANCE`.
    pub fn new(game_settings: GameSettings) -> (board: Board)
        requires
            game_settings.board_width >= 1,
            game_settings.board_height >= 1,
        ensures
            board.wf(),
            board.space == (CoordinateSpace {
                width: game_settings.board_width,
                height: game_settings.board_height,
                max_distance: 4,
            }),
            board.player_color == game_settings.player_color,
            board.player_tile == game_settings.player_tile,
            forall|x: int, y: int|
                0 <= x < board.space.width && 0 <= y < board.space.height ==> !board.searched(
                    x,
                    y,
                ),
    {
        let space = CoordinateSpace {
            width: game_settings.board_width,
            height: game_settings.board_height,
            max_distance: Board::MOVE_MAX_DISTANCE,
        };
        let mut rng = seeded_rng(game_settings.seed);
        let player_coordinates = Board::random_coordinates(&space, &mut rng);
        let treasure_coordinates = Board::random_coordinates(&space, &mut rng);
        Board {
            space,
            player_color: game_settings.player_color,
            player_coordinates,
            treasure_coordinates,
            rng,
            player_tile: game_settings.player_tile,
            tracker: Board::empty_tracker(space.width, space.height),
        }
    }

    /// Puts the player on the cell on which `i64_coordinates` fall once
    /// both axes wrap. How far that is from the player is not judged.
    pub fn set_player_coordinates(&mut self, i64_coordinates: (i64, i64))
        requires
            old(self).wf(),
        ensures
            final(self).wf(),
            final(self).player_coordinates == old(self).space.wrap(i64_coordinates),
            old(self).same_game(final(self)),
            final(self).tracker == old(self).tracker,
    {
        self.player_coordinates = self.space.coordinate_modulo(i64_coordinates);
    }

    /// Moves the player to `target` if that is a legal move from where the
    /// player stands, and refuses otherwise, leaving the game as it is.
    pub fn teleport_logic(&mut self, target: &Position) -> (r: Result<(), BoardError>)
        requires
            old(self).wf(),
            old(self).space.contains(*target),
        ensures
            final(self).wf(),
            old(self).same_game(final(self)),
            final(self).tracker == old(self).tracker,
            dist_legal(
                old(self).dists_to(*target),
                (old(self).space.width, old(self).space.height),
                old(self).space.max_distance,
            ) ==> r is Ok && final(self).player_coordinates == *target,
            !dist_legal(
                old(self).dists_to(*target),
                (old(self).space.width, old(self).space.height),
                old(self).space.max_distance,
            ) ==> r is Err && r->Err_0@ == ErrorView::InvalidMove(too_far_message())
                && final(self).player_coordinates == old(self).player_coordinates,
    {
        let dims = self.space.dimensions();
        proof {
            lemma_dists_fit(self.player_coordinates, *target, dims);
        }
        let dists = self.player_coordinates.get_xy_dists(target);
        if Position::is_dist_legal(dists, dims, self.space.max_distance) {
            proof {
                self.space.lemma_wrap_idempotent(*target);
            }
            self.set_player_coordinates(target.to_i64());
            Ok(())
        } else {
            Err(BoardError::InvalidMove("You can't do this move, it's too far".to_owned()))
        }
    }

    /// Searches the cell on which the player stands. Where the treasure
    /// lies there, nothing changes. Otherwise the cell is recorded as
    /// searched, and the distance to the treasure on the torus is told.
    pub fn search_player_position(&mut self) -> (r: Search)
        requires
            old(self).wf(),
        ensures
            final(self).wf(),
            old(self).same_game(final(self)),
            final(self).player_coordinates == old(self).player_coordinates,
            old(self).player_coordinates == old(self).treasure_coordinates ==> r
                == Search::Treasure && final(self).tracker == old(self).tracker,
            old(self).player_coordinates != old(self).treasure_coordinates ==> r
                == Search::Nothing(
                shortest_dist(
                    old(self).dists_to(old(self).treasure_coordinates),
                    (old(self).space.width, old(self).space.height),
                ) as u32,
            ),
            old(self).player_coordinates != old(self).treasure_coordinates ==> forall|
                x: int,
                y: int,
            |
                0 <= x < old(self).space.width && 0 <= y < old(self).space.height ==> (
                #[trigger] final(self).searched(x, y) == (old(self).searched(x, y) || (x
                    == old(self).player_coordinates.x && y == old(self).player_coordinates.y))),
    {
        if self.player_coordinates.x == self.treasure_coordinates.x && self.player_coordinates.y
            == self.treasure_coordinates.y {
            return Search::Treasure;
        }
        let x = self.player_coordinates.x as usize;
        let y = self.player_coordinates.y as usize;
        self.tracker[x][y] = true;
        let dims = self.space.dimensions();
        proof {
            lemma_dists_fit(self.player_coordinates, self.treasure_coordinates, dims);
        }
        let dists = self.player_coordinates.get_xy_dists(&self.treasure_coordinates);
        Search::Nothing(Position::get_shortest_dist(dists, dims))
    }
}

} // verus!
