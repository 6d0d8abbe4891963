use crate::error::{outcome, BoardError, ErrorView};
use crate::grammar::{pair_outcome, parse_pair_of};
use crate::text::chars_of;
use crate::numeric::{append_decimal, decimal_repr};
use vstd::prelude::*;
use vstd::string::StringExecFns;

verus! {

/// The eight ways to leave a cell, named as on a numeric keypad.
#[derive(Debug, Clone, Copy, PartialEq, Eq, Structural)]
pub enum Direction {
    Right,
    UpRight,
    Up,
    UpLeft,
    Left,
    DownLeft,
    Down,
    DownRight,
}

/// A move told from the player's own place: a direction and how far.
#[derive(Debug, Clone, Copy, PartialEq, Eq, Structural)]
pub struct Zmove {
    pub direction: Direction,
    pub speed: u32,
}

/// The direction that a keypad digit stands for. The digits 0 and 5 and
/// every number above 9 stand for none.
pub open spec fn keypad_direction(n: u32) -> Option<Direction> {
    if n == 6 {
        Some(Direction::Right)
    } else if n == 9 {
        Some(Direction::UpRight)
    } else if n == 8 {
        Some(Direction::Up)
    } else if n == 7 {
        Some(Direction::UpLeft)
    } else if n == 4 {
        Some(Direction::Left)
    } else if n == 1 {
        Some(Direction::DownLeft)
    } else if n == 2 {
        Some(Direction::Down)
    } else if n == 3 {
        Some(Direction::DownRight)
    } else {
        None
    }
}

/// One step in a direction: `x` grows to the right, `y` grows upwards.
pub open spec fn unit_vector(d: Direction) -> (int, int) {
    match d {
        Direction::Right => (1, 0),
        Direction::UpRight => (1, 1),
        Direction::Up => (0, 1),
        Direction::UpLeft => (-1, 1),
        Direction::Left => (-1, 0),
        Direction::DownLeft => (-1, -1),
        Direction::Down => (0, -1),
        Direction::DownRight => (1, -1),
    }
}

/// The message for a number that is no keypad direction.
pub open spec fn no_direction_message() -> Seq<char> {
    "This direction doesn't exist on a num pad [only value: 6,9,8,7,4,1,2,3]"@
}

/// The message for a speed of zero.
pub open spec fn no_speed_message() -> Seq<char> {
    "Your speed is 0, you can't move if you have no speed."@
}

/// The message for a speed above `max_distance`.
pub open spec fn too_fast_message(max_distance: u32) -> Seq<char> {
    "Your speed is too high, max is "@ + decimal_repr(max_distance as nat) + "."@
}

/// The message for a move whose line has none of the accepted shapes.
pub open spec fn zmove_format_message() -> Seq<char> {
    "Incorrect parenthesis format, please format your zmove like this '12,13' '[12,0xc]' '(0x12,14)'"@
}

/// The move that a direction digit and a speed make, where no move is
/// longer than `max_distance`. The speed is judged before the direction.
pub open spec fn zmove_of(direction: u32, speed: u32, max_distance: u32) -> Result<
    Zmove,
    ErrorView,
> {
    if speed > max_distance {
        Err(ErrorView::InvalidMove(too_fast_message(max_distance)))
    } else if speed == 0 {
        Err(ErrorView::InvalidMove(no_speed_message()))
    } else {
        match keypad_direction(direction) {
            Some(d) => Ok(Zmove { direction: d, speed }),
            None => Err(ErrorView::InvalidMove(no_direction_message())),
        }
    }
}

/// What a line is read as where a move is expected: its two numbers are the
/// direction digit and the speed.
pub open spec fn zmove_outcome(line: Seq<char>, max_distance: u32) -> Result<Zmove, ErrorView> {
    match pair_outcome(line, zmove_format_message()) {
        Ok(pair) => zmove_of(pair.0, pair.1, max_distance),
        Err(e) => Err(e),
    }
}

/// A move is made exactly from a speed between one and the longest move
/// and a digit of the keypad, and then it has that speed and the digit's
/// direction.
pub proof fn lemma_zmove_bounds(direction: u32, speed: u32, max_distance: u32)
    ensures
        zmove_of(direction, speed, max_distance) matches Ok(z) ==> z.wf(max_distance) && z.speed
            == speed && keypad_direction(direction) == Some(z.direction),
        zmove_of(direction, speed, max_distance) is Ok <==> 1 <= speed <= max_distance
            && keypad_direction(direction) is Some,
{
}

/// A move that is read from a line keeps within the longest move.
pub proof fn lemma_zmove_read_bounds(line: Seq<char>, max_distance: u32)
    ensures
        zmove_outcome(line, max_distance) matches Ok(z) ==> z.wf(max_distance),
{
}

/// A step leads to one of the eight cells round a cell: each component is
/// -1, 0 or 1, and not both are 0.
pub proof fn lemma_unit_vector(d: Direction)
    ensures
        -1 <= unit_vector(d).0 <= 1,
        -1 <= unit_vector(d).1 <= 1,
        unit_vector(d) != (0int, 0int),
{
}

/// The digits of the keypad and the directions stand one for one: two
/// digits with the same direction are the same digit, and every direction
/// has its digit.
pub proof fn lemma_keypad_one_to_one(a: u32, b: u32, d: Direction)
    ensures
        keypad_direction(a) is Some && keypad_direction(a) == keypad_direction(b) ==> a == b,
        exists|n: u32| 1 <= n <= 9 && keypad_direction(n) == Some(d),
{
    match d {
        Direction::Right => assert(keypad_direction(6) == Some(d)),
        Direction::UpRight => assert(keypad_direction(9) == Some(d)),
        Direction::Up => assert(keypad_direction(8) == Some(d)),
        Direction::UpLeft => assert(keypad_direction(7) == Some(d)),
        Direction::Left => assert(keypad_direction(4) == Some(d)),
        Direction::DownLeft => assert(keypad_direction(1) == Some(d)),
        Direction::Down => assert(keypad_direction(2) == Some(d)),
        Direction::DownRight => assert(keypad_direction(3) == Some(d)),
    }
}

impl Direction {
    /// The direction of a keypad digit.
    pub fn get_direction_from_num_pad_int(digit: u32) -> (r: Result<Direction, BoardError>)
        ensures
            match keypad_direction(digit) {
                Some(d) => r == Ok::<Direction, BoardError>(d),
                None => r is Err && r->Err_0@ == ErrorView::InvalidMove(no_direction_message()),
            },
    {
        match digit {
            6 => Ok(Direction::Right),
            9 => Ok(Direction::UpRight),
            8 => Ok(Direction::Up),
            7 => Ok(Direction::UpLeft),
            4 => Ok(Direction::Left),
            1 => Ok(Direction::DownLeft),
            2 => Ok(Direction::Down),
            3 => Ok(Direction::DownRight),
            _ => Err(
                BoardError::InvalidMove(
                    "This direction doesn't exist on a num pad [only value: 6,9,8,7,4,1,2,3]".to_owned(),
                ),
            ),
        }
    }

    /// One step in `direction`.
    pub fn get_i64_pair_from_direction(direction: &Direction) -> (r: (i64, i64))
        ensures
            (r.0 as int, r.1 as int) == unit_vector(*direction),
    {
        match direction {
            Direction::Right => (1, 0),
            Direction::UpRight => (1, 1),
            Direction::Up => (0, 1),
            Direction::UpLeft => (-1, 1),
            Direction::Left => (-1, 0),
            Direction::DownLeft => (-1, -1),
            Direction::Down => (0, -1),
            Direction::DownRight => (1, -1),
        }
    }
}

impl Zmove {
    /// A move goes at least one cell and at most `max_distance` cells.
    pub open spec fn wf(&self, max_distance: u32) -> bool {
        1 <= self.speed <= max_distance
    }

    /// Makes a move from a keypad digit and a speed, where no move is
    /// longer than `max_distance`.
    pub fn new(direction: u32, speed: u32, max_distance: u32) -> (r: Result<Zmove, BoardError>)
        ensures
            outcome(r) == zmove_of(direction, speed, max_distance),
            r matches Ok(z) ==> z.wf(max_distance),
    {
        if speed > max_distance {
            let mut message = "Your speed is too high, max is ".to_owned();
            append_decimal(&mut message, max_distance as u64);
            message.append(".");
            return Err(BoardError::InvalidMove(message));
        }
        if speed == 0 {
            return Err(
                BoardError::InvalidMove(
                    "Your speed is 0, you can't move if you have no speed.".to_owned(),
                ),
            );
        }
        match Direction::get_direction_from_num_pad_int(direction) {
            Ok(d) => Ok(Zmove { direction: d, speed }),
            Err(e) => Err(e),
        }
    }

    /// The displacement of the move: its speed along its direction.
    pub fn get_vector(&self) -> (r: (i64, i64))
        ensures
            r.0 == self.speed * unit_vector(self.direction).0,
            r.1 == self.speed * unit_vector(self.direction).1,
            r.0 == -self.speed || r.0 == 0 || r.0 == self.speed,
            r.1 == -self.speed || r.1 == 0 || r.1 == self.speed,
    {
        let unit = Direction::get_i64_pair_from_direction(&self.direction);
        let speed = self.speed as i64;
        assert(-1 <= unit.0 <= 1 && -1 <= unit.1 <= 1);
        assert(speed * unit.0 == -speed || speed * unit.0 == 0 || speed * unit.0 == speed)
            by (nonlinear_arith)
            requires
                -1 <= unit.0 <= 1,
        ;
        assert(speed * unit.1 == -speed || speed * unit.1 == 0 || speed * unit.1 == speed)
            by (nonlinear_arith)
            requires
                -1 <= unit.1 <= 1,
        ;
        (speed * unit.0, speed * unit.1)
    }

    /// Reads a line of characters as a move: a direction digit and a speed
    /// with a comma between them, bare or in one pair of brackets,
    /// whitespace anywhere.
    pub fn from_chars(line: &Vec<char>, max_distance: u32) -> (r: Result<Zmove, BoardError>)
        ensures
            outcome(r) == zmove_outcome(line@, max_distance),
            r matches Ok(z) ==> z.wf(max_distance),
    {
        match parse_pair_of(
            line,
            "Incorrect parenthesis format, please format your zmove like this '12,13' '[12,0xc]' '(0x12,14)'",
        ) {
            Ok(pair) => Zmove::new(pair.0, pair.1, max_distance),
            Err(e) => Err(e),
        }
    }

    /// Reads a line as a move: a direction digit and a speed with a comma
    /// between them, bare or in one pair of brackets, whitespace anywhere.
    pub fn from_str(s: &str, max_distance: u32) -> (r: Result<Zmove, BoardError>)
        ensures
            outcome(r) == zmove_outcome(s@, max_distance),
            r matches Ok(z) ==> z.wf(max_distance),
    {
        let line = chars_of(s);
        Zmove::from_chars(&line, max_distance)
    }
}

} // verus!
