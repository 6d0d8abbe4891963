use vstd::prelude::*;
use vstd::string::StringExecFns;

verus! {

/// Why a token is not an unsigned 32-bit number.
#[derive(Debug, Clone, Copy, PartialEq, Eq, Structural)]
pub enum ParseFailure {
    /// There is no digit at all.
    Empty,
    /// Some character is not a digit of the base.
    InvalidDigit,
    /// The digits denote a number above `u32::MAX`.
    TooLarge,
}

/// What the character stands for as a digit: `0-9`, then `a-f` or `A-F`
/// for ten to fifteen. Sixteen for any other character, which is a digit of
/// no base that is read here.
pub open spec fn digit_value(c: char) -> nat {
    if '0' <= c <= '9' {
        (c as u32 - '0' as u32) as nat
    } else if 'a' <= c <= 'f' {
        (c as u32 - 'a' as u32 + 10) as nat
    } else if 'A' <= c <= 'F' {
        (c as u32 - 'A' as u32 + 10) as nat
    } else {
        16
    }
}

/// Whether `c` is a digit of base `radix`.
pub open spec fn is_digit(c: char, radix: nat) -> bool {
    digit_value(c) < radix
}

/// Whether `s` holds digits of base `radix` and nothing else.
pub open spec fn all_digits(s: Seq<char>, radix: nat) -> bool {
    forall|i: int| 0 <= i < s.len() ==> is_digit(#[trigger] s[i], radix)
}

/// The number that the digits of `s` denote in base `radix`, the most
/// significant digit first.
pub open spec fn number_value(s: Seq<char>, radix: nat) -> nat
    decreases s.len(),
{
    if s.len() == 0 {
        0
    } else {
        number_value(s.drop_last(), radix) * radix + digit_value(s.last())
    }
}

/// Whether `s` begins with a run of digits of base `radix` that already
/// denotes a number above `u32::MAX`.
pub open spec fn overflows(s: Seq<char>, radix: nat) -> bool {
    exists|k: int|
        0 <= k <= s.len() && all_digits(#[trigger] s.take(k), radix) && number_value(
            s.take(k),
            radix,
        ) > u32::MAX
}

/// What a run of digits in base `radix` is read as. The characters are
/// judged from the left, and the first that cannot stand decides on the
/// failure: a digit with which the number grows above `u32::MAX`, or a
/// character that is no digit.
pub open spec fn digits_outcome(s: Seq<char>, radix: nat) -> Result<u32, ParseFailure> {
    if s.len() == 0 {
        Err(ParseFailure::Empty)
    } else if overflows(s, radix) {
        Err(ParseFailure::TooLarge)
    } else if !all_digits(s, radix) {
        Err(ParseFailure::InvalidDigit)
    } else {
        Ok(number_value(s, radix) as u32)
    }
}

/// A token is read as hexadecimal when the letter x occurs in it.
pub open spec fn is_hex_literal(s: Seq<char>) -> bool {
    s.contains('x') || s.contains('X')
}

/// Whether `s` begins with `0x` or `0X`.
pub open spec fn has_hex_prefix(s: Seq<char>) -> bool {
    s.len() >= 2 && s[0] == '0' && (s[1] == 'x' || s[1] == 'X')
}

/// The digits of a hexadecimal token: what follows one leading `0x`.
pub open spec fn hex_digits(s: Seq<char>) -> Seq<char> {
    if has_hex_prefix(s) {
        s.skip(2)
    } else {
        s
    }
}

/// What a token is read as: base sixteen where it is a hexadecimal
/// literal, base ten otherwise. Nothing is trimmed and no sign is accepted.
pub open spec fn literal_outcome(s: Seq<char>) -> Result<u32, ParseFailure> {
    if is_hex_literal(s) {
        digits_outcome(hex_digits(s), 16)
    } else {
        digits_outcome(s, 10)
    }
}

/// The message that reports a failure.
pub open spec fn failure_message(f: ParseFailure) -> Seq<char> {
    match f {
        ParseFailure::Empty => "cannot parse integer from empty string"@,
        ParseFailure::InvalidDigit => "invalid digit found in string"@,
        ParseFailure::TooLarge => "number too large to fit in target type"@,
    }
}

/// Appending a digit never makes the denoted number smaller.
pub proof fn lemma_value_grows(s: Seq<char>, c: char, radix: nat)
    requires
        radix >= 1,
    ensures
        number_value(s.push(c), radix) == number_value(s, radix) * radix + digit_value(c),
        number_value(s.push(c), radix) >= number_value(s, radix),
{
    assert(s.push(c).drop_last() == s);
    assert(number_value(s, radix) * radix >= number_value(s, radix)) by (nonlinear_arith)
        requires
            radix >= 1,
    ;
}

/// A number is at least the number that any of its leading digits denote.
pub proof fn lemma_prefix_value(s: Seq<char>, k: int, radix: nat)
    requires
        radix >= 1,
        0 <= k <= s.len(),
    ensures
        number_value(s.take(k), radix) <= number_value(s, radix),
    decreases s.len() - k,
{
    if k == s.len() {
        assert(s.take(k) == s);
    } else {
        assert(s.take(k + 1) == s.take(k).push(s[k]));
        lemma_value_grows(s.take(k), s[k], radix);
        lemma_prefix_value(s, k + 1, radix);
    }
}

/// Digits that denote a number within `u32::MAX`, with nothing or with a
/// character that is no digit behind them, never grow above it.
pub proof fn lemma_stays_within(s: Seq<char>, j: int, radix: nat)
    requires
        radix >= 1,
        0 <= j <= s.len(),
        all_digits(s.take(j), radix),
        number_value(s.take(j), radix) <= u32::MAX,
        j < s.len() ==> !is_digit(s[j], radix),
    ensures
        !overflows(s, radix),
        all_digits(s, radix) <==> j == s.len(),
{
    assert forall|k: int| 0 <= k <= s.len() && all_digits(#[trigger] s.take(k), radix) implies
        number_value(s.take(k), radix) <= u32::MAX by {
        if k > j {
            assert(s.take(k)[j] == s[j]);
        } else {
            assert(s.take(j).take(k) == s.take(k));
            lemma_prefix_value(s.take(j), k, radix);
        }
    }
    if j == s.len() {
        assert(s.take(j) == s);
    }
}

/// The character that writes a digit below sixteen, letters in lower case.
pub open spec fn digit_char(d: nat) -> char {
    if d == 0 {
        '0'
    } else if d == 1 {
        '1'
    } else if d == 2 {
        '2'
    } else if d == 3 {
        '3'
    } else if d == 4 {
        '4'
    } else if d == 5 {
        '5'
    } else if d == 6 {
        '6'
    } else if d == 7 {
        '7'
    } else if d == 8 {
        '8'
    } else if d == 9 {
        '9'
    } else if d == 10 {
        'a'
    } else if d == 11 {
        'b'
    } else if d == 12 {
        'c'
    } else if d == 13 {
        'd'
    } else if d == 14 {
        'e'
    } else {
        'f'
    }
}

/// A number written in base ten, without leading zeros.
pub open spec fn decimal_repr(n: nat) -> Seq<char>
    decreases n,
{
    if n < 10 {
        seq![digit_char(n)]
    } else {
        decimal_repr(n / 10).push(digit_char(n % 10))
    }
}

/// A number written in base sixteen, without leading zeros and without a
/// prefix.
pub open spec fn hex_repr(n: nat) -> Seq<char>
    decreases n,
{
    if n < 16 {
        seq![digit_char(n)]
    } else {
        hex_repr(n / 16).push(digit_char(n % 16))
    }
}

/// The decimal writing of a number holds decimal digits only, and they
/// denote that number.
pub proof fn lemma_decimal_repr(n: nat)
    ensures
        decimal_repr(n).len() >= 1,
        all_digits(decimal_repr(n), 10),
        number_value(decimal_repr(n), 10) == n,
        !is_hex_literal(decimal_repr(n)),
    decreases n,
{
    let s = decimal_repr(n);
    if n < 10 {
        assert(s.drop_last() == Seq::<char>::empty());
        assert(number_value(s.drop_last(), 10) == 0);
    } else {
        lemma_decimal_repr(n / 10);
        lemma_value_grows(decimal_repr(n / 10), digit_char(n % 10), 10);
    }
    assert forall|i: int| 0 <= i < s.len() implies s[i] != 'x' && s[i] != 'X' by {
        assert(is_digit(s[i], 10));
    }
}

/// The hexadecimal writing of a number holds hexadecimal digits only, none
/// of them the letter x, and they denote that number.
pub proof fn lemma_hex_repr(n: nat)
    ensures
        hex_repr(n).len() >= 1,
        all_digits(hex_repr(n), 16),
        number_value(hex_repr(n), 16) == n,
    decreases n,
{
    let s = hex_repr(n);
    if n < 16 {
        assert(s.drop_last() == Seq::<char>::empty());
        assert(number_value(s.drop_last(), 16) == 0);
    } else {
        lemma_hex_repr(n / 16);
        lemma_value_grows(hex_repr(n / 16), digit_char(n % 16), 16);
    }
}

/// A number that fits in 32 bits is read back from its decimal writing.
pub proof fn lemma_reads_decimal(n: u32)
    ensures
        literal_outcome(decimal_repr(n as nat)) == Ok::<u32, ParseFailure>(n),
{
    let s = decimal_repr(n as nat);
    lemma_decimal_repr(n as nat);
    assert(s.take(s.len() as int) == s);
    lemma_stays_within(s, s.len() as int, 10);
}

/// A number that fits in 32 bits is read back from its hexadecimal writing
/// behind the prefix `0x`.
pub proof fn lemma_reads_hex(n: u32)
    ensures
        literal_outcome(seq!['0', 'x'] + hex_repr(n as nat)) == Ok::<u32, ParseFailure>(n),
{
    lemma_hex_repr(n as nat);
    let digits = hex_repr(n as nat);
    let s = seq!['0', 'x'] + digits;
    assert(s[1] == 'x');
    assert(s.contains('x'));
    assert(has_hex_prefix(s));
    assert(s.skip(2) == digits);
    assert(digits.take(digits.len() as int) == digits);
    lemma_stays_within(digits, digits.len() as int, 16);
}

/// A token that begins with a minus sign is never a number.
pub proof fn lemma_minus_fails(s: Seq<char>)
    requires
        s.len() >= 1,
        s[0] == '-',
    ensures
        literal_outcome(s) is Err,
{
    assert(!is_digit(s[0], 10));
    assert(!is_digit(s[0], 16));
    assert(!has_hex_prefix(s));
    assert(!all_digits(s, 10));
    assert(!all_digits(s, 16));
}

/// The value of `c` as a digit, if it is one in base sixteen.
pub fn digit_of(c: char) -> (r: Option<u32>)
    ensures
        match r {
            Some(d) => d == digit_value(c) && d < 16,
            None => digit_value(c) == 16,
        },
{
    let n: u32 = c as u32;
    if '0' <= c && c <= '9' {
        Some(n - 48)
    } else if 'a' <= c && c <= 'f' {
        Some(n - 87)
    } else if 'A' <= c && c <= 'F' {
        Some(n - 55)
    } else {
        None
    }
}

/// Reads the characters of `token` from `start` on as digits of base
/// `radix`.
pub fn parse_digits(token: &Vec<char>, start: usize, radix: u32) -> (r: Result<u32, ParseFailure>)
    requires
        start <= token.len(),
        1 <= radix <= 16,
    ensures
        r == digits_outcome(token@.skip(start as int), radix as nat),
{
    let ghost s = token@.skip(start as int);
    if start == token.len() {
        return Err(ParseFailure::Empty);
    }
    let mut acc: u64 = 0;
    let mut i: usize = start;
    proof {
        assert(number_value(s.take(0), radix as nat) == 0);
    }
    while i < token.len()
        invariant
            start <= i <= token.len(),
            1 <= radix <= 16,
            s == token@.skip(start as int),
            all_digits(s.take(i - start), radix as nat),
            acc <= u32::MAX,
            acc == number_value(s.take(i - start), radix as nat),
        decreases token.len() - i,
    {
        let c = token[i];
        proof {
            assert(s[i - start] == c);
            assert(s.take(i - start + 1) == s.take(i - start).push(c));
            lemma_value_grows(s.take(i - start), c, radix as nat);
        }
        let d = match digit_of(c) {
            Some(d) => d,
            None => 16,
        };
        if d >= radix {
            proof {
                lemma_stays_within(s, i - start, radix as nat);
            }
            return Err(ParseFailure::InvalidDigit);
        }
        assert(acc * radix + d <= 0xffff_ffff * 16 + 15) by (nonlinear_arith)
            requires
                acc <= 0xffff_ffff,
                radix <= 16,
                d < 16,
        ;
        let next: u64 = acc * (radix as u64) + (d as u64);
        if next > 0xffff_ffff {
            assert(overflows(s, radix as nat));
            return Err(ParseFailure::TooLarge);
        }
        acc = next;
        i += 1;
    }
    proof {
        assert(s.take(s.len() as int) == s);
        lemma_stays_within(s, s.len() as int, radix as nat);
    }
    Ok(acc as u32)
}

/// Whether the letter x occurs in `token`, in either case.
pub fn contains_x(token: &Vec<char>) -> (r: bool)
    ensures
        r == is_hex_literal(token@),
{
    let mut i: usize = 0;
    while i < token.len()
        invariant
            i <= token.len(),
            forall|j: int| 0 <= j < i ==> token@[j] != 'x' && token@[j] != 'X',
        decreases token.len() - i,
    {
        if token[i] == 'x' || token[i] == 'X' {
            return true;
        }
        i += 1;
    }
    false
}

/// Reads a token as an unsigned 32-bit number, decimal or hexadecimal.
pub fn parse_literal(token: &Vec<char>) -> (r: Result<u32, ParseFailure>)
    ensures
        r == literal_outcome(token@),
{
    if contains_x(token) {
        if token.len() >= 2 && token[0] == '0' && (token[1] == 'x' || token[1] == 'X') {
            parse_digits(token, 2, 16)
        } else {
            assert(token@.skip(0) == token@);
            parse_digits(token, 0, 16)
        }
    } else {
        assert(token@.skip(0) == token@);
        parse_digits(token, 0, 10)
    }
}

/// The text of one decimal digit.
pub fn digit_text(d: u32) -> (t: &'static str)
    requires
        d < 10,
    ensures
        t@ == seq![digit_char(d as nat)],
{
    proof {
        reveal_strlit("0");
        reveal_strlit("1");
        reveal_strlit("2");
        reveal_strlit("3");
        reveal_strlit("4");
        reveal_strlit("5");
        reveal_strlit("6");
        reveal_strlit("7");
        reveal_strlit("8");
        reveal_strlit("9");
    }
    let t = if d == 0 {
        "0"
    } else if d == 1 {
        "1"
    } else if d == 2 {
        "2"
    } else if d == 3 {
        "3"
    } else if d == 4 {
        "4"
    } else if d == 5 {
        "5"
    } else if d == 6 {
        "6"
    } else if d == 7 {
        "7"
    } else if d == 8 {
        "8"
    } else {
        "9"
    };
    assert(t@ =~= seq![digit_char(d as nat)]);
    t
}

/// Writes `n` in base ten at the end of `out`.
pub fn append_decimal(out: &mut String, n: u64)
    ensures
        final(out)@ == old(out)@ + decimal_repr(n as nat),
    decreases n,
{
    if n >= 10 {
        append_decimal(out, n / 10);
    }
    out.append(digit_text((n % 10) as u32));
    assert(final(out)@ =~= old(out)@ + decimal_repr(n as nat));
}

} // verus!
