use crate::error::{outcome, BoardError, ErrorView};
use crate::numeric::{
    decimal_repr, failure_message, hex_repr, lemma_minus_fails, lemma_reads_decimal,
    lemma_reads_hex, literal_outcome, parse_literal, ParseFailure,
};
use crate::text::{
    chars_of, comma_count, drop_whitespace, fields, is_whitespace, lemma_clean_stays,
    lemma_commas_add, lemma_fields_split, significant, split_fields, views, without_whitespace,
};
use vstd::prelude::*;

verus! {

/// The characters that the body of a numeric line may hold: digits in either
/// base, the letter x, the comma and the minus sign.
pub open spec fn is_body_char(c: char) -> bool {
    ||| '0' <= c <= '9'
    ||| 'a' <= c <= 'f'
    ||| 'A' <= c <= 'F'
    ||| c == 'x'
    ||| c == 'X'
    ||| c == ','
    ||| c == '-'
}

/// A body is one or more body characters.
pub open spec fn is_body(s: Seq<char>) -> bool {
    s.len() >= 1 && forall|i: int| 0 <= i < s.len() ==> is_body_char(#[trigger] s[i])
}

/// Whether `s` begins with `open` and ends with `close`, two distinct
/// positions.
pub open spec fn is_wrapped(s: Seq<char>, open: char, close: char) -> bool {
    s.len() >= 2 && s[0] == open && s.last() == close
}

/// Whether `s` stands in one matching pair of round or square brackets.
pub open spec fn is_bracketed(s: Seq<char>) -> bool {
    is_wrapped(s, '(', ')') || is_wrapped(s, '[', ']')
}

/// `s` without its one matching pair of brackets, or `s` itself where it
/// has none.
pub open spec fn unwrapped(s: Seq<char>) -> Seq<char> {
    if is_bracketed(s) {
        s.subrange(1, s.len() - 1)
    } else {
        s
    }
}

/// The body of a line that is free of whitespace, if the line has one of the
/// three accepted shapes: `(body)`, `[body]` or `body`. Nothing else is
/// accepted: no second pair of brackets, no unmatched bracket, no character
/// outside the body's set before, in or after the body.
pub open spec fn body_of(s: Seq<char>) -> Option<Seq<char>> {
    if is_body(unwrapped(s)) {
        Some(unwrapped(s))
    } else {
        None
    }
}

/// What one token is read as, a failure told as an error of the board.
pub open spec fn token_outcome(s: Seq<char>) -> Result<u32, ErrorView> {
    match literal_outcome(s) {
        Ok(n) => Ok(n),
        Err(f) => Err(ErrorView::FailedParse(failure_message(f))),
    }
}

/// What a line that should hold two numbers is read as. The shape is judged
/// first, then the number of fields, then the first field, then the second.
pub open spec fn pair_outcome(line: Seq<char>, format_message: Seq<char>) -> Result<
    (u32, u32),
    ErrorView,
> {
    match body_of(without_whitespace(line)) {
        None => Err(ErrorView::InvalidFormat(format_message)),
        Some(body) => {
            let f = fields(body);
            if f.len() != 2 {
                Err(ErrorView::Not2Dimensional(f.len()))
            } else {
                match (token_outcome(f[0]), token_outcome(f[1])) {
                    (Err(e), _) => Err(e),
                    (Ok(_), Err(e)) => Err(e),
                    (Ok(a), Ok(b)) => Ok((a, b)),
                }
            }
        },
    }
}

/// Hexadecimal and decimal agree: a 32-bit number written in base ten,
/// and the same number written in base sixteen behind `0x`, are both read
/// as that number.
pub proof fn lemma_hex_decimal_parity(n: u32)
    ensures
        token_outcome(decimal_repr(n as nat)) == token_outcome(
            seq!['0', 'x'] + hex_repr(n as nat),
        ),
        token_outcome(decimal_repr(n as nat)) == Ok::<u32, ErrorView>(n),
{
    lemma_reads_decimal(n);
    lemma_reads_hex(n);
}

/// A token with a minus sign in front is never a number.
pub proof fn lemma_negative_fails(s: Seq<char>)
    requires
        s.len() >= 1,
        s[0] == '-',
    ensures
        token_outcome(s) is Err,
        token_outcome(s) matches Err(e) && e is FailedParse,
{
    lemma_minus_fails(s);
}

/// Every line has exactly one reading: a pair of numbers, or one error out
/// of the three that a pair can fail with.
pub proof fn lemma_pair_total(line: Seq<char>, format_message: Seq<char>)
    ensures
        match pair_outcome(line, format_message) {
            Ok(_) => true,
            Err(e) => e is InvalidFormat || e is Not2Dimensional || e is FailedParse,
        },
        body_of(without_whitespace(line)) is None <==> (pair_outcome(line, format_message) matches Err(
            e,
        ) && e is InvalidFormat),
{
}

/// Brackets are no commas: a line has as many fields with its pair of
/// brackets as without.
pub proof fn lemma_unwrapped_fields(s: Seq<char>)
    ensures
        fields(unwrapped(s)).len() == fields(s).len(),
{
    if is_bracketed(s) {
        let inner = s.subrange(1, s.len() - 1);
        assert(s =~= seq![s[0]] + inner + seq![s.last()]);
        lemma_commas_add(seq![s[0]] + inner, seq![s.last()]);
        lemma_commas_add(seq![s[0]], inner);
        assert(comma_count(seq![s[0]]) == 0) by {
            assert(seq![s[0]].drop_last() =~= Seq::<char>::empty());
            reveal_with_fuel(comma_count, 2);
        }
        assert(comma_count(seq![s.last()]) == 0) by {
            assert(seq![s.last()].drop_last() =~= Seq::<char>::empty());
            reveal_with_fuel(comma_count, 2);
        }
        lemma_fields_split(s);
        lemma_fields_split(inner);
    }
}

/// The cleaned body of a line holds no whitespace, so cleaning it again
/// changes nothing.
pub proof fn lemma_body_is_clean(line: Seq<char>)
    ensures
        without_whitespace(unwrapped(without_whitespace(line))) == unwrapped(
            without_whitespace(line),
        ),
{
    let clean = without_whitespace(line);
    let body = unwrapped(clean);
    assert forall|i: int| 0 <= i < body.len() implies !is_whitespace(#[trigger] body[i]) by {
        if is_bracketed(clean) {
            assert(body[i] == clean[i + 1]);
            line.lemma_filter_pred(significant(), i + 1);
        } else {
            line.lemma_filter_pred(significant(), i);
        }
    }
    lemma_clean_stays(body);
}

/// Whether `c` may stand in a body.
pub fn char_is_body(c: char) -> (r: bool)
    ensures
        r == is_body_char(c),
{
    ('0' <= c && c <= '9') || ('a' <= c && c <= 'f') || ('A' <= c && c <= 'F') || c == 'x' || c
        == 'X' || c == ',' || c == '-'
}

/// Whether `s` is a body.
pub fn check_body(s: &Vec<char>) -> (r: bool)
    ensures
        r == is_body(s@),
{
    if s.len() == 0 {
        return false;
    }
    let mut i: usize = 0;
    while i < s.len()
        invariant
            i <= s.len(),
            forall|j: int| 0 <= j < i ==> is_body_char(#[trigger] s@[j]),
        decreases s.len() - i,
    {
        if !char_is_body(s[i]) {
            return false;
        }
        i += 1;
    }
    true
}

/// Takes one matching pair of brackets off `s`, if it has one.
pub fn unwrap_brackets(s: &Vec<char>) -> (r: Vec<char>)
    ensures
        r@ == unwrapped(s@),
{
    let n = s.len();
    let bracketed = n >= 2 && ((s[0] == '(' && s[n - 1] == ')') || (s[0] == '[' && s[n - 1]
        == ']'));
    let (from, to) = if bracketed {
        (1, n - 1)
    } else {
        (0, n)
    };
    let mut r: Vec<char> = Vec::new();
    let mut i: usize = from;
    while i < to
        invariant
            from <= i <= to <= s.len(),
            r@ == s@.subrange(from as int, i as int),
        decreases to - i,
    {
        r.push(s[i]);
        assert(s@.subrange(from as int, i + 1) == s@.subrange(from as int, i as int).push(
            s@[i as int],
        ));
        i += 1;
    }
    assert(s@.subrange(0, n as int) == s@);
    r
}

/// Judges the shape of a line of characters and hands out its body: the
/// line without whitespace and without its pair of brackets. `None` where
/// the line has none of the accepted shapes.
pub fn body_of_line(line: &Vec<char>) -> (r: Option<Vec<char>>)
    ensures
        match r {
            Some(body) => body_of(without_whitespace(line@)) == Some(body@),
            None => body_of(without_whitespace(line@)) is None,
        },
{
    let clean = drop_whitespace(line);
    let body = unwrap_brackets(&clean);
    if check_body(&body) {
        Some(body)
    } else {
        None
    }
}

/// Judges the shape of a line and hands out its body: the line without
/// whitespace and without its pair of brackets. `None` where the line has
/// none of the accepted shapes.
pub fn validate_and_strip(line: &str) -> (r: Option<Vec<char>>)
    ensures
        match r {
            Some(body) => body_of(without_whitespace(line@)) == Some(body@),
            None => body_of(without_whitespace(line@)) is None,
        },
{
    let characters = chars_of(line);
    body_of_line(&characters)
}

/// The error that reports why a token is no number.
pub fn failed_parse(f: ParseFailure) -> (e: BoardError)
    ensures
        e@ == ErrorView::FailedParse(failure_message(f)),
{
    match f {
        ParseFailure::Empty => BoardError::FailedParse(
            "cannot parse integer from empty string".to_owned(),
        ),
        ParseFailure::InvalidDigit => BoardError::FailedParse(
            "invalid digit found in string".to_owned(),
        ),
        ParseFailure::TooLarge => BoardError::FailedParse(
            "number too large to fit in target type".to_owned(),
        ),
    }
}

/// Reads one token as an unsigned 32-bit number.
pub fn parse_token(token: &Vec<char>) -> (r: Result<u32, BoardError>)
    ensures
        outcome(r) == token_outcome(token@),
{
    match parse_literal(token) {
        Ok(n) => Ok(n),
        Err(f) => Err(failed_parse(f)),
    }
}

/// Reads a line of characters that should hold two numbers, in brackets or
/// bare. A line of another shape is refused with `format_message`.
pub fn parse_pair_of(line: &Vec<char>, format_message: &str) -> (r: Result<
    (u32, u32),
    BoardError,
>)
    ensures
        outcome(r) == pair_outcome(line@, format_message@),
{
    let body = match body_of_line(line) {
        Some(body) => body,
        None => {
            return Err(BoardError::InvalidFormat(format_message.to_owned()));
        },
    };
    let parts = split_fields(&body);
    assert(views(parts@).len() == parts@.len());
    if parts.len() != 2 {
        return Err(BoardError::Not2Dimensional(parts.len()));
    }
    assert(views(parts@)[0] == parts@[0]@);
    assert(views(parts@)[1] == parts@[1]@);
    let first = match parse_token(&parts[0]) {
        Ok(n) => n,
        Err(e) => {
            return Err(e);
        },
    };
    let second = match parse_token(&parts[1]) {
        Ok(n) => n,
        Err(e) => {
            return Err(e);
        },
    };
    Ok((first, second))
}

/// Reads a line that should hold two numbers, in brackets or bare.
/// A line of another shape is refused with `format_message`.
pub fn parse_pair(line: &str, format_message: &str) -> (r: Result<(u32, u32), BoardError>)
    ensures
        outcome(r) == pair_outcome(line@, format_message@),
{
    let characters = chars_of(line);
    parse_pair_of(&characters, format_message)
}

} // verus!
