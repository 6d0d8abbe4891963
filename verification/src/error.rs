use crate::numeric::{append_decimal, decimal_repr};
use vstd::prelude::*;
use vstd::string::StringExecFns;

verus! {

/// Why a line of player input was refused.
#[derive(Debug, PartialEq)]
pub enum BoardError {
    /// A well-formed move that breaks a rule of the game.
    InvalidMove(String),
    /// A well-formed word or number that names no command.
    InvalidCommand(String),
    /// The line does not have one of the accepted bracket shapes.
    InvalidFormat(String),
    /// A field could not be read as an unsigned 32-bit number.
    FailedParse(String),
    /// The number of fields found where exactly two were needed.
    Not2Dimensional(usize),
    /// The number of fields found where at most two are allowed.
    TooManyArguments(usize),
}

/// The mathematical content of a [`BoardError`]: each message as a sequence
/// of characters.
pub enum ErrorView {
    InvalidMove(Seq<char>),
    InvalidCommand(Seq<char>),
    InvalidFormat(Seq<char>),
    FailedParse(Seq<char>),
    Not2Dimensional(nat),
    TooManyArguments(nat),
}

impl View for BoardError {
    type V = ErrorView;

    open spec fn view(&self) -> ErrorView {
        match *self {
            BoardError::InvalidMove(m) => ErrorView::InvalidMove(m@),
            BoardError::InvalidCommand(m) => ErrorView::InvalidCommand(m@),
            BoardError::InvalidFormat(m) => ErrorView::InvalidFormat(m@),
            BoardError::FailedParse(m) => ErrorView::FailedParse(m@),
            BoardError::Not2Dimensional(n) => ErrorView::Not2Dimensional(n as nat),
            BoardError::TooManyArguments(n) => ErrorView::TooManyArguments(n as nat),
        }
    }
}

/// What is told to the player about an error: the message that it
/// carries, or a sentence round the number that it carries.
pub open spec fn error_message(e: ErrorView) -> Seq<char> {
    match e {
        ErrorView::InvalidMove(m) => m,
        ErrorView::InvalidCommand(m) => m,
        ErrorView::InvalidFormat(m) => m,
        ErrorView::FailedParse(m) => m,
        ErrorView::Not2Dimensional(n) => "Your value had "@ + decimal_repr(n)
            + " dimension(s) instead of 2"@,
        ErrorView::TooManyArguments(n) => decimal_repr(n) + " is too many elements"@,
    }
}

impl BoardError {
    /// The error as a sentence for the player.
    pub fn message(&self) -> (r: String)
        ensures
            r@ == error_message(self@),
    {
        match self {
            BoardError::InvalidMove(m) => m.clone(),
            BoardError::InvalidCommand(m) => m.clone(),
            BoardError::InvalidFormat(m) => m.clone(),
            BoardError::FailedParse(m) => m.clone(),
            BoardError::Not2Dimensional(n) => {
                let mut r = "Your value had ".to_owned();
                append_decimal(&mut r, *n as u64);
                r.append(" dimension(s) instead of 2");
                r
            },
            BoardError::TooManyArguments(n) => {
                let mut r = String::new();
                append_decimal(&mut r, *n as u64);
                r.append(" is too many elements");
                assert(r@ =~= error_message(self@));
                r
            },
        }
    }
}

/// A result whose error, if any, is taken by its view.
pub open spec fn outcome<T>(r: Result<T, BoardError>) -> Result<T, ErrorView> {
    match r {
        Ok(v) => Ok(v),
        Err(e) => Err(e@),
    }
}

} // verus!
