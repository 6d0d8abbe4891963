use crate::error::{outcome, BoardError, ErrorView};
use crate::grammar::{lemma_body_is_clean, lemma_unwrapped_fields, unwrap_brackets, unwrapped};
use crate::numeric::{literal_outcome, parse_literal};
use crate::text::{
    chars_of, comma_count, fields, lemma_fields_split, split_fields, strip_whitespace, views,
    without_whitespace,
};
use crate::zmove::{lemma_zmove_read_bounds, zmove_outcome, Zmove};
use vstd::prelude::*;

verus! {

/// What the player asks for in one line.
#[derive(Debug, Clone, Copy, PartialEq, Eq, Structural)]
pub enum Command {
    /// Go to a cell that is yet to be named.
    AskTeleport,
    /// Make a move that is yet to be named.
    AskZmove,
    /// Make this move.
    Zmove(Zmove),
    /// Dig where the player stands.
    Search,
    /// Leave the game.
    Quit,
}

/// The characters that make a line numeric: decimal digits, the comma and
/// the minus sign.
pub open spec fn is_numeric_char(c: char) -> bool {
    '0' <= c <= '9' || c == ',' || c == '-'
}

/// A line is numeric where one of its characters is; it is a word
/// otherwise.
pub open spec fn is_numeric(s: Seq<char>) -> bool {
    exists|i: int| 0 <= i < s.len() && is_numeric_char(#[trigger] s[i])
}

/// The kinds of line, told apart in one pass over the body.
#[derive(Debug, Clone, Copy, PartialEq, Eq, Structural)]
pub enum LineKind {
    /// No numeric character: the line is a word.
    Word,
    /// A numeric line of one field.
    Number,
    /// A numeric line of two fields.
    Pair,
    /// A numeric line of three fields or more.
    Crowd,
}

/// The kind of a line with the given body.
pub open spec fn line_kind(body: Seq<char>) -> LineKind {
    if !is_numeric(body) {
        LineKind::Word
    } else if fields(body).len() == 1 {
        LineKind::Number
    } else if fields(body).len() == 2 {
        LineKind::Pair
    } else {
        LineKind::Crowd
    }
}

/// Whether `c` is `letter` or, where `c` is a capital, its small form is.
pub open spec fn same_letter(c: char, letter: char) -> bool {
    c == letter || ('A' <= c <= 'Z' && c as u32 + 32 == letter as u32)
}

/// Whether `s` is `word`, capitals standing for small letters.
pub open spec fn is_word(s: Seq<char>, word: Seq<char>) -> bool {
    s.len() == word.len() && forall|i: int|
        0 <= i < s.len() ==> same_letter(#[trigger] s[i], word[i])
}

/// The command that a word names.
pub open spec fn word_command(s: Seq<char>) -> Option<Command> {
    if is_word(s, "z"@) || is_word(s, "zmove"@) {
        Some(Command::AskZmove)
    } else if is_word(s, "move"@) || is_word(s, "m"@) {
        Some(Command::AskTeleport)
    } else if is_word(s, "search"@) || is_word(s, "s"@) {
        Some(Command::Search)
    } else if is_word(s, "exit"@) || is_word(s, "quit"@) || is_word(s, "q"@) || is_word(
        s,
        "e"@,
    ) {
        Some(Command::Quit)
    } else {
        None
    }
}

/// The command that a number names.
pub open spec fn number_command(n: u32) -> Option<Command> {
    if n == 0 {
        Some(Command::AskTeleport)
    } else if n == 1 {
        Some(Command::Search)
    } else if n == 2 {
        Some(Command::Quit)
    } else {
        None
    }
}

/// The message for a word that names no command.
pub open spec fn unknown_word_message() -> Seq<char> {
    "this word is not recognised"@
}

/// The message for a number that names no command.
pub open spec fn unknown_number_message() -> Seq<char> {
    "this u32 is not legal"@
}

/// The message for a single field that is no number.
pub open spec fn not_a_number_message() -> Seq<char> {
    "You need to enter an u32 corresponding to the command, or the command itself"@
}

/// What a single numeric field is read as.
pub open spec fn number_outcome(field: Seq<char>) -> Result<Command, ErrorView> {
    match literal_outcome(field) {
        Err(_) => Err(ErrorView::FailedParse(not_a_number_message())),
        Ok(n) => match number_command(n) {
            Some(c) => Ok(c),
            None => Err(ErrorView::InvalidCommand(unknown_number_message())),
        },
    }
}

/// What a line is read as where a command is expected. Whitespace counts
/// nowhere, and one matching pair of brackets round the line is accepted:
/// what is left is the body. A word names a command or is refused. A single
/// field is a command number. Two fields are a move: the body is read as a
/// move, and what that gives is handed on as it is. More fields are
/// refused.
pub open spec fn command_outcome(line: Seq<char>, max_distance: u32) -> Result<
    Command,
    ErrorView,
> {
    let body = unwrapped(without_whitespace(line));
    match line_kind(body) {
        LineKind::Word => match word_command(body) {
            Some(c) => Ok(c),
            None => Err(ErrorView::InvalidCommand(unknown_word_message())),
        },
        LineKind::Number => number_outcome(fields(body)[0]),
        LineKind::Pair => match zmove_outcome(body, max_distance) {
            Ok(z) => Ok(Command::Zmove(z)),
            Err(e) => Err(e),
        },
        LineKind::Crowd => Err(ErrorView::TooManyArguments(fields(body).len())),
    }
}

/// Every line has exactly one reading as a command, and a line that is
/// refused is refused for one of five reasons: a line of two fields is
/// never sent back for the number of its fields.
pub proof fn lemma_command_total(line: Seq<char>, max_distance: u32)
    ensures
        match command_outcome(line, max_distance) {
            Ok(_) => true,
            Err(e) => !(e is Not2Dimensional),
        },
        command_outcome(line, max_distance) matches Ok(Command::Zmove(z)) ==> z.wf(max_distance),
        command_outcome(line, max_distance) matches Err(ErrorView::TooManyArguments(n)) ==> n
            == fields(unwrapped(without_whitespace(line))).len() && n >= 3,
{
    let body = unwrapped(without_whitespace(line));
    if line_kind(body) is Pair {
        lemma_zmove_read_bounds(body, max_distance);
        lemma_body_is_clean(line);
        lemma_unwrapped_fields(body);
    }
    if line_kind(body) is Crowd {
        lemma_fields_split(body);
    }
}

/// A line of two fields is a command exactly as its body is a move: the
/// move that the body reads as, or the error that the body is refused
/// with, and so never for its word, its number, or too many fields.
pub proof fn lemma_pair_is_move(line: Seq<char>, max_distance: u32)
    requires
        comma_count(unwrapped(without_whitespace(line))) == 1,
    ensures
        command_outcome(line, max_distance) == match zmove_outcome(
            unwrapped(without_whitespace(line)),
            max_distance,
        ) {
            Ok(z) => Ok::<Command, ErrorView>(Command::Zmove(z)),
            Err(e) => Err(e),
        },
        match command_outcome(line, max_distance) {
            Ok(c) => c is Zmove,
            Err(e) => e is InvalidFormat || e is FailedParse || e is InvalidMove,
        },
{
    let body = unwrapped(without_whitespace(line));
    lemma_fields_split(body);
    lemma_commas_numeric(body);
    lemma_body_is_clean(line);
    lemma_unwrapped_fields(body);
}

/// A line with a comma in it is numeric.
pub proof fn lemma_commas_numeric(s: Seq<char>)
    requires
        comma_count(s) >= 1,
    ensures
        is_numeric(s),
    decreases s.len(),
{
    if s.len() > 0 {
        if s.last() == ',' {
            assert(is_numeric_char(s[s.len() - 1]));
        } else {
            lemma_commas_numeric(s.drop_last());
            let i = choose|i: int|
                0 <= i < s.drop_last().len() && is_numeric_char(#[trigger] s.drop_last()[i]);
            assert(is_numeric_char(s[i]));
        }
    }
}

/// Tells the kind of a line from its body, in one pass.
pub fn classify(body: &Vec<char>) -> (kind: LineKind)
    ensures
        kind == line_kind(body@),
        kind is Number ==> fields(body@) == seq![body@],
{
    let mut numeric = false;
    let mut count: u8 = 1;
    let mut i: usize = 0;
    proof {
        assert(body@.take(0) =~= Seq::<char>::empty());
        assert(fields(body@.take(0)) =~~= seq![body@.take(0)]);
    }
    while i < body.len()
        invariant
            i <= body.len(),
            numeric == is_numeric(body@.take(i as int)),
            1 <= count <= 3,
            count < 3 ==> count == fields(body@.take(i as int)).len(),
            count == 3 ==> fields(body@.take(i as int)).len() >= 3,
            count == 1 ==> fields(body@.take(i as int)) == seq![body@.take(i as int)],
        decreases body.len() - i,
    {
        let c = body[i];
        proof {
            let before = body@.take(i as int);
            let after = body@.take(i + 1);
            assert(after.drop_last() == before);
            assert(after.last() == c);
            if is_numeric(after) {
                let j = choose|j: int| 0 <= j < after.len() && is_numeric_char(after[j]);
                if j < i {
                    assert(is_numeric_char(before[j]));
                }
            }
            if is_numeric(before) {
                let j = choose|j: int| 0 <= j < before.len() && is_numeric_char(before[j]);
                assert(is_numeric_char(after[j]));
            }
            if is_numeric_char(c) {
                assert(is_numeric_char(after[i as int]));
            }
            if c != ',' && count == 1 {
                assert(fields(after) =~~= seq![after]);
            }
        }
        if ('0' <= c && c <= '9') || c == ',' || c == '-' {
            numeric = true;
        }
        if c == ',' && count < 3 {
            count += 1;
        }
        i += 1;
    }
    proof {
        assert(body@.take(body@.len() as int) == body@);
    }
    if !numeric {
        LineKind::Word
    } else if count == 1 {
        LineKind::Number
    } else if count == 2 {
        LineKind::Pair
    } else {
        LineKind::Crowd
    }
}

/// Whether `s` is `word`, capitals standing for small letters.
pub fn matches_word(s: &Vec<char>, word: &str) -> (r: bool)
    ensures
        r == is_word(s@, word@),
{
    let letters = chars_of(word);
    if s.len() != letters.len() {
        return false;
    }
    let mut i: usize = 0;
    while i < s.len()
        invariant
            i <= s.len(),
            s.len() == letters.len(),
            letters@ == word@,
            forall|j: int| 0 <= j < i ==> same_letter(#[trigger] s@[j], word@[j]),
        decreases s.len() - i,
    {
        let c = s[i];
        let letter = letters[i];
        let same = c == letter || ('A' <= c && c <= 'Z' && c as u32 + 32 == letter as u32);
        if !same {
            return false;
        }
        i += 1;
    }
    true
}

/// The command that a word names, if it names one.
pub fn command_of_word(s: &Vec<char>) -> (r: Option<Command>)
    ensures
        r == word_command(s@),
{
    if matches_word(s, "z") || matches_word(s, "zmove") {
        Some(Command::AskZmove)
    } else if matches_word(s, "move") || matches_word(s, "m") {
        Some(Command::AskTeleport)
    } else if matches_word(s, "search") || matches_word(s, "s") {
        Some(Command::Search)
    } else if matches_word(s, "exit") || matches_word(s, "quit") || matches_word(s, "q")
        || matches_word(s, "e") {
        Some(Command::Quit)
    } else {
        None
    }
}

/// The command that a single numeric field names.
pub fn command_of_number(field: &Vec<char>) -> (r: Result<Command, BoardError>)
    ensures
        outcome(r) == number_outcome(field@),
{
    match parse_literal(field) {
        Ok(0) => Ok(Command::AskTeleport),
        Ok(1) => Ok(Command::Search),
        Ok(2) => Ok(Command::Quit),
        Ok(_) => Err(BoardError::InvalidCommand("this u32 is not legal".to_owned())),
        Err(_) => Err(
            BoardError::FailedParse(
                "You need to enter an u32 corresponding to the command, or the command itself".to_owned(),
            ),
        ),
    }
}

impl Command {
    /// Reads a line as a command, where no move is longer than
    /// `max_distance`.
    pub fn from_str(s: &str, max_distance: u32) -> (r: Result<Command, BoardError>)
        ensures
            outcome(r) == command_outcome(s@, max_distance),
    {
        let clean = strip_whitespace(s);
        let body = unwrap_brackets(&clean);
        match classify(&body) {
            LineKind::Word => match command_of_word(&body) {
                Some(c) => Ok(c),
                None => Err(BoardError::InvalidCommand("this word is not recognised".to_owned())),
            },
            LineKind::Number => command_of_number(&body),
            LineKind::Pair => match Zmove::from_chars(&body, max_distance) {
                Ok(z) => Ok(Command::Zmove(z)),
                Err(e) => Err(e),
            },
            LineKind::Crowd => {
                let parts = split_fields(&body);
                assert(views(parts@).len() == parts@.len());
                Err(BoardError::TooManyArguments(parts.len()))
            },
        }
    }
}

} // verus!
