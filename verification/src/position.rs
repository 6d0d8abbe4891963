use crate::error::{outcome, BoardError, ErrorView};
use crate::grammar::{pair_outcome, parse_pair, parse_token, token_outcome};
use crate::numeric::{append_decimal, decimal_repr};
use crate::text::chars_of;
use vstd::prelude::*;
use vstd::string::StringExecFns;

verus! {

/// A cell named by two coordinates. Nothing says that it lies on a board:
/// a position read from text may lie anywhere.
#[derive(Debug, Clone, Copy, PartialEq, Eq, Structural)]
pub struct Position {
    pub x: u32,
    pub y: u32,
}

/// The distance between two points of one axis, with no wrapping.
pub open spec fn axis_dist(a: u32, b: u32) -> nat {
    if a >= b {
        (a - b) as nat
    } else {
        (b - a) as nat
    }
}

/// The shorter of the two ways between two points of a ring of `dim` cells
/// that lie `raw` apart: straight, or round the other side.
pub open spec fn axis_shortest(raw: u32, dim: u32) -> int {
    if raw <= dim - raw {
        raw as int
    } else {
        dim - raw
    }
}

/// The distance on the torus: the larger of the two axes' shortest ways.
pub open spec fn shortest_dist(dist: (u32, u32), dims: (u32, u32)) -> int {
    let x = axis_shortest(dist.0, dims.0);
    let y = axis_shortest(dist.1, dims.1);
    if x >= y {
        x
    } else {
        y
    }
}

/// Whether one axis allows the move: straight or round the other side, it
/// is at most `max_distance` long.
pub open spec fn axis_legal(raw: u32, dim: u32, max_distance: u32) -> bool {
    raw <= max_distance || dim - raw <= max_distance
}

/// A move is legal where each axis, by itself, allows it.
pub open spec fn dist_legal(dist: (u32, u32), dims: (u32, u32), max_distance: u32) -> bool {
    axis_legal(dist.0, dims.0, max_distance) && axis_legal(dist.1, dims.1, max_distance)
}

/// The message for a position whose line has none of the accepted shapes.
pub open spec fn position_format_message() -> Seq<char> {
    "Incorrect parenthesis format"@
}

/// What a line is read as where a position is expected.
pub open spec fn position_outcome(line: Seq<char>) -> Result<Position, ErrorView> {
    match pair_outcome(line, position_format_message()) {
        Ok(pair) => Ok(Position { x: pair.0, y: pair.1 }),
        Err(e) => Err(e),
    }
}

/// A position as it is shown: both coordinates in base ten, in round
/// brackets.
pub open spec fn position_text(p: Position) -> Seq<char> {
    "("@ + decimal_repr(p.x as nat) + ", "@ + decimal_repr(p.y as nat) + ")"@
}

/// A move is legal exactly where the distance on the torus is at most the
/// longest move.
pub proof fn lemma_legal_iff_near(dist: (u32, u32), dims: (u32, u32), max_distance: u32)
    requires
        dist.0 <= dims.0,
        dist.1 <= dims.1,
    ensures
        dist_legal(dist, dims, max_distance) <==> shortest_dist(dist, dims) <= max_distance,
{
}

/// Two cells of one board are never a whole dimension apart, so their
/// distances are within what the distance functions accept.
pub proof fn lemma_dists_fit(a: Position, b: Position, dims: (u32, u32))
    requires
        a.x < dims.0,
        a.y < dims.1,
        b.x < dims.0,
        b.y < dims.1,
    ensures
        axis_dist(a.x, b.x) < dims.0,
        axis_dist(a.y, b.y) < dims.1,
{
}

impl Position {
    /// Both coordinates as signed 64-bit numbers.
    pub fn to_i64(&self) -> (r: (i64, i64))
        ensures
            r.0 == self.x,
            r.1 == self.y,
    {
        (self.x as i64, self.y as i64)
    }

    /// The distance to `other` on each axis, with no wrapping.
    pub fn get_xy_dists(&self, other: &Position) -> (r: (u32, u32))
        ensures
            r.0 == axis_dist(self.x, other.x),
            r.1 == axis_dist(self.y, other.y),
    {
        let dx = if self.x >= other.x {
            self.x - other.x
        } else {
            other.x - self.x
        };
        let dy = if self.y >= other.y {
            self.y - other.y
        } else {
            other.y - self.y
        };
        (dx, dy)
    }

    /// The distance on a torus of dimensions `board_width_height` between
    /// two cells that lie `dist` apart on the plane.
    pub fn get_shortest_dist(dist: (u32, u32), board_width_height: (u32, u32)) -> (r: u32)
        requires
            dist.0 <= board_width_height.0,
            dist.1 <= board_width_height.1,
        ensures
            r == shortest_dist(dist, board_width_height),
    {
        let around_x = board_width_height.0 - dist.0;
        let around_y = board_width_height.1 - dist.1;
        let min_x = if dist.0 <= around_x {
            dist.0
        } else {
            around_x
        };
        let min_y = if dist.1 <= around_y {
            dist.1
        } else {
            around_y
        };
        if min_x >= min_y {
            min_x
        } else {
            min_y
        }
    }

    /// Whether a move over `xy_dist` is allowed on a torus of dimensions
    /// `board_width_height` where no move is longer than `max_distance`.
    pub fn is_dist_legal(
        xy_dist: (u32, u32),
        board_width_height: (u32, u32),
        max_distance: u32,
    ) -> (r: bool)
        requires
            xy_dist.0 <= board_width_height.0,
            xy_dist.1 <= board_width_height.1,
        ensures
            r == dist_legal(xy_dist, board_width_height, max_distance),
            r == (shortest_dist(xy_dist, board_width_height) <= max_distance),
    {
        (xy_dist.0 <= max_distance || board_width_height.0 - xy_dist.0 <= max_distance) && (
        xy_dist.1 <= max_distance || board_width_height.1 - xy_dist.1 <= max_distance)
    }

    /// Reads one token as an unsigned 32-bit number, decimal or, with the
    /// letter x in it, hexadecimal.
    pub fn parse_dec_or_hex(s: &str) -> (r: Result<u32, BoardError>)
        ensures
            outcome(r) == token_outcome(s@),
    {
        let token = chars_of(s);
        parse_token(&token)
    }

    /// Reads a line as a position: two numbers with a comma between them,
    /// bare or in one pair of brackets, whitespace anywhere.
    pub fn from_str(s: &str) -> (r: Result<Position, BoardError>)
        ensures
            outcome(r) == position_outcome(s@),
    {
        match parse_pair(s, "Incorrect parenthesis format") {
            Ok(pair) => Ok(Position { x: pair.0, y: pair.1 }),
            Err(e) => Err(e),
        }
    }

    /// The position as text, such as `(3, 14)`.
    pub fn to_text(&self) -> (r: String)
        ensures
            r@ == position_text(*self),
    {
        let mut r = String::new();
        r.append("(");
        append_decimal(&mut r, self.x as u64);
        r.append(", ");
        append_decimal(&mut r, self.y as u64);
        r.append(")");
        assert(r@ =~= position_text(*self));
        r
    }
}

impl std::str::FromStr for Position {
    type Err = BoardError;

    /// Reads a line as a position, as the function of the same name does
    /// that the type has by itself.
    fn from_str(s: &str) -> (r: Result<Position, BoardError>)
        ensures
            outcome(r) == position_outcome(s@),
    {
        Position::from_str(s)
    }
}

} // verus!
