use crate::position::Position;
use vstd::prelude::*;

verus! {

/// A board that wraps round on both axes, and the longest move allowed on
/// it.
#[derive(Debug, Clone, Copy, PartialEq, Eq, Structural)]
pub struct CoordinateSpace {
    pub width: u32,
    pub height: u32,
    pub max_distance: u32,
}

/// The cell of a ring of `dim` cells on which the coordinate `n` falls:
/// the remainder that is never negative.
pub open spec fn wrap_axis(n: int, dim: u32) -> int {
    n % (dim as int)
}

impl CoordinateSpace {
    /// A board has at least one cell.
    pub open spec fn wf(&self) -> bool {
        self.width >= 1 && self.height >= 1
    }

    /// Whether `p` is a cell of the board.
    pub open spec fn contains(&self, p: Position) -> bool {
        p.x < self.width && p.y < self.height
    }

    /// The cell on which a pair of coordinates falls once both axes wrap.
    pub open spec fn wrap(&self, pair: (i64, i64)) -> Position {
        Position {
            x: wrap_axis(pair.0 as int, self.width) as u32,
            y: wrap_axis(pair.1 as int, self.height) as u32,
        }
    }

    /// The board of the given dimensions, if it has a cell at all.
    pub fn new(width: u32, height: u32, max_distance: u32) -> (r: Option<CoordinateSpace>)
        ensures
            r == if width >= 1 && height >= 1 {
                Some(CoordinateSpace { width, height, max_distance })
            } else {
                None
            },
    {
        if width >= 1 && height >= 1 {
            Some(CoordinateSpace { width, height, max_distance })
        } else {
            None
        }
    }

    /// Width and height as a pair.
    pub fn dimensions(&self) -> (r: (u32, u32))
        ensures
            r == (self.width, self.height),
    {
        (self.width, self.height)
    }

    /// Brings any pair of coordinates onto the board by wrapping both
    /// axes: one step left of column 0 is the last column.
    pub fn coordinate_modulo(&self, i64_pair: (i64, i64)) -> (r: Position)
        requires
            self.wf(),
        ensures
            r == self.wrap(i64_pair),
            self.contains(r),
            (i64_pair.0 - r.x) % (self.width as int) == 0,
            (i64_pair.1 - r.y) % (self.height as int) == 0,
    {
        proof {
            self.lemma_wrap_on_board(i64_pair);
        }
        let x = wrap_coordinate(i64_pair.0, self.width);
        let y = wrap_coordinate(i64_pair.1, self.height);
        Position { x, y }
    }

    /// Whether `position` is a cell of the board.
    pub fn is_in_board(&self, position: &Position) -> (r: bool)
        ensures
            r == self.contains(*position),
    {
        position.x < self.width && position.y < self.height
    }

    /// Wrapping always lands on the board, on a cell that differs from the
    /// coordinates by whole turns round it.
    pub proof fn lemma_wrap_on_board(&self, pair: (i64, i64))
        requires
            self.wf(),
        ensures
            self.contains(self.wrap(pair)),
            self.wrap(pair).x == wrap_axis(pair.0 as int, self.width),
            self.wrap(pair).y == wrap_axis(pair.1 as int, self.height),
            (pair.0 - self.wrap(pair).x) % (self.width as int) == 0,
            (pair.1 - self.wrap(pair).y) % (self.height as int) == 0,
    {
        lemma_wrap_axis(pair.0 as int, self.width);
        lemma_wrap_axis(pair.1 as int, self.height);
    }

    /// Wrapping leaves a cell of the board where it is.
    pub proof fn lemma_wrap_idempotent(&self, p: Position)
        requires
            self.wf(),
            self.contains(p),
        ensures
            self.wrap((p.x as i64, p.y as i64)) == p,
    {
        vstd::arithmetic::div_mod::lemma_small_mod(p.x as nat, self.width as nat);
        vstd::arithmetic::div_mod::lemma_small_mod(p.y as nat, self.height as nat);
    }

    /// One step before the first cell is the last cell, and one step after
    /// the last cell is the first, on both axes.
    pub proof fn lemma_wrap_edges(&self)
        requires
            self.wf(),
        ensures
            self.wrap((-1i64, -1i64)) == self.wrap(((self.width - 1) as i64, (self.height - 1) as i64)),
            self.wrap((-1i64, -1i64)) == (Position {
                x: (self.width - 1) as u32,
                y: (self.height - 1) as u32,
            }),
            self.wrap((self.width as i64, self.height as i64)) == self.wrap((0i64, 0i64)),
            self.wrap((0i64, 0i64)) == (Position { x: 0, y: 0 }),
    {
        lemma_wrap_edge(self.width);
        lemma_wrap_edge(self.height);
    }

    /// Coordinates that differ by whole turns round the board fall on the
    /// same cell.
    pub proof fn lemma_wrap_turns(&self, pair: (i64, i64), other: (i64, i64), kx: int, ky: int)
        requires
            self.wf(),
            other.0 == pair.0 + kx * self.width,
            other.1 == pair.1 + ky * self.height,
        ensures
            self.wrap(other) == self.wrap(pair),
    {
        lemma_wrap_turn(pair.0 as int, kx, self.width);
        lemma_wrap_turn(pair.1 as int, ky, self.height);
    }
}

/// The wrapped coordinate is a cell of the ring, and differs from the
/// coordinate by whole turns.
pub proof fn lemma_wrap_axis(n: int, dim: u32)
    requires
        dim >= 1,
    ensures
        0 <= wrap_axis(n, dim) < dim,
        (n - wrap_axis(n, dim)) % (dim as int) == 0,
{
    let d = dim as int;
    vstd::arithmetic::div_mod::lemma_mod_bound(n, d);
    vstd::arithmetic::div_mod::lemma_fundamental_div_mod(n, d);
    assert(n - n % d == d * (n / d));
    vstd::arithmetic::div_mod::lemma_mod_multiples_basic(n / d, d);
    assert(d * (n / d) == (n / d) * d) by (nonlinear_arith);
}

/// The edges of one ring: -1 is the last cell, `dim` is the first.
pub proof fn lemma_wrap_edge(dim: u32)
    requires
        dim >= 1,
    ensures
        wrap_axis(-1, dim) == dim - 1,
        wrap_axis(dim - 1, dim) == dim - 1,
        wrap_axis(dim as int, dim) == 0,
        wrap_axis(0, dim) == 0,
{
    let d = dim as int;
    vstd::arithmetic::div_mod::lemma_small_mod((dim - 1) as nat, dim as nat);
    vstd::arithmetic::div_mod::lemma_small_mod(0, dim as nat);
    vstd::arithmetic::div_mod::lemma_mod_add_multiples_vanish(-1, d);
    vstd::arithmetic::div_mod::lemma_mod_add_multiples_vanish(0, d);
}

/// Whole turns round one ring change nothing.
pub proof fn lemma_wrap_turn(n: int, k: int, dim: u32)
    requires
        dim >= 1,
    ensures
        wrap_axis(n + k * dim, dim) == wrap_axis(n, dim),
{
    vstd::arithmetic::div_mod::lemma_mod_multiples_vanish(k, n, dim as int);
    assert(k * dim + n == n + k * dim);
    assert(dim as int * k == k * dim) by (nonlinear_arith);
}

/// The cell of a ring of `dim` cells on which the coordinate `n` falls.
pub fn wrap_coordinate(n: i64, dim: u32) -> (r: u32)
    requires
        dim >= 1,
    ensures
        r == wrap_axis(n as int, dim),
        r < dim,
{
    proof {
        lemma_wrap_axis(n as int, dim);
    }
    match n.checked_rem_euclid(dim as i64) {
        Some(m) => m as u32,
        None => 0,
    }
}

} // verus!
