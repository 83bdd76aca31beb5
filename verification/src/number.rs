//! Decimal numerals: writing integers and reading them back.

use vstd::arithmetic::power::pow;
use vstd::prelude::*;

verus! {

/// The decimal digit for `d`.
pub open spec fn digit(d: int) -> char {
    seq!['0', '1', '2', '3', '4', '5', '6', '7', '8', '9'][d]
}

/// The decimal numeral of a natural number, without leading zeros.
pub open spec fn digits(n: nat) -> Seq<char>
    decreases n,
{
    if n < 10 {
        seq![digit(n as int)]
    } else {
        digits(n / 10).push(digit((n % 10) as int))
    }
}

/// The decimal numeral of an integer.
pub open spec fn decimal(n: int) -> Seq<char> {
    if n < 0 {
        seq!['-'] + digits((-n) as nat)
    } else {
        digits(n as nat)
    }
}

/// `c` is a decimal digit.
pub open spec fn is_digit(c: char) -> bool {
    '0' <= c <= '9'
}

/// The number that a row of decimal digits stands for.
pub open spec fn magnitude(row: Seq<char>) -> nat
    decreases row.len(),
{
    if row.len() == 0 {
        0
    } else {
        magnitude(row.drop_last()) * 10 + (row.last() as nat - '0' as nat) as nat
    }
}

/// The digits of a signed numeral: what follows its sign, if it has one.
pub open spec fn unsigned_part(text: Seq<char>) -> Seq<char> {
    if text.len() > 0 && (text[0] == '+' || text[0] == '-') {
        text.skip(1)
    } else {
        text
    }
}

/// The number that a signed numeral stands for.
pub open spec fn signed_value(text: Seq<char>) -> int {
    if text.len() > 0 && text[0] == '-' {
        -(magnitude(unsigned_part(text)) as int)
    } else {
        magnitude(unsigned_part(text)) as int
    }
}

/// `text` is an optional sign followed by one or more decimal digits.
pub open spec fn is_numeral(text: Seq<char>) -> bool {
    let row = unsigned_part(text);
    row.len() > 0 && forall|i: int| 0 <= i < row.len() ==> is_digit(#[trigger] row[i])
}

/// The 32-bit integer that `text` stands for, if it is a numeral in range.
pub open spec fn i32_value(text: Seq<char>) -> Option<i32> {
    if is_numeral(text) && i32::MIN <= signed_value(text) <= i32::MAX {
        Some(signed_value(text) as i32)
    } else {
        None
    }
}

/// The decimal digit for `d`.
fn digit_char(d: u64) -> (c: char)
    requires
        d < 10,
    ensures
        c == digit(d as int),
{
    if d == 0 {
        '0'
    } else if d == 1 {
        '1'
    } else if d == 2 {
        '2'
    } else if d == 3 {
        '3'
    } else if d == 4 {
        '4'
    } else if d == 5 {
        '5'
    } else if d == 6 {
        '6'
    } else if d == 7 {
        '7'
    } else if d == 8 {
        '8'
    } else {
        '9'
    }
}

/// Appends the decimal numeral of `n`.
fn push_digits(text: &mut String, n: u64)
    ensures
        final(text)@ == old(text)@ + digits(n as nat),
    decreases n,
{
    if n >= 10 {
        push_digits(text, n / 10);
    }
    text.push(digit_char(n % 10));
    assert(text@ =~= old(text)@ + digits(n as nat));
}

/// The decimal numeral of `n`.
pub fn decimal_text(n: i64) -> (text: String)
    ensures
        text@ == decimal(n as int),
{
    let mut text = String::new();
    if n < 0 {
        text.push('-');
        let size: u64 = if n == i64::MIN {
            9223372036854775808
        } else {
            (-n) as u64
        };
        push_digits(&mut text, size);
        assert(text@ =~= decimal(n as int));
    } else {
        push_digits(&mut text, n as u64);
        assert(text@ =~= decimal(n as int));
    }
    text
}

/// A row of digits stands for at least as much as any of its beginnings.
proof fn lemma_magnitude_grows(row: Seq<char>, k: int)
    requires
        0 <= k <= row.len(),
    ensures
        magnitude(row.take(k)) <= magnitude(row),
    decreases row.len() - k,
{
    if k < row.len() {
        lemma_magnitude_grows(row, k + 1);
        assert(row.take(k + 1).drop_last() =~= row.take(k));
    } else {
        assert(row.take(k) =~= row);
    }
}

/// Reads a 32-bit integer: an optional sign and one or more decimal digits, nothing else.
pub fn parse_i32(text: &str) -> (value: Option<i32>)
    ensures
        value == i32_value(text@),
{
    let chars = crate::text::chars_of(text);
    let length: usize = chars.len();
    let signed: bool = length > 0 && (chars[0] == '+' || chars[0] == '-');
    let negative: bool = length > 0 && chars[0] == '-';
    let start: usize = if signed {
        1
    } else {
        0
    };
    let ghost row = unsigned_part(text@);
    if start == length {
        return None;
    }
    let mut size: i64 = 0;
    let mut i: usize = start;
    while i < length
        invariant
            length == chars@.len(),
            chars@ == text@,
            start <= i <= length,
            start == 0 || start == 1,
            row == text@.skip(start as int),
            row == unsigned_part(text@),
            negative == (text@.len() > 0 && text@[0] == '-'),
            forall|k: int| 0 <= k < i - start ==> is_digit(#[trigger] row[k]),
            size == magnitude(row.take(i - start)),
            0 <= size <= 2147483648,
        decreases length - i,
    {
        let c = chars[i];
        assert(c == row[i - start]);
        if c < '0' || c > '9' {
            assert(!is_digit(row[i - start]));
            return None;
        }
        assert(row.take(i - start + 1).drop_last() =~= row.take(i - start));
        size = size * 10 + (c as u32 - '0' as u32) as i64;
        i = i + 1;
        if size > 2147483648 {
            proof {
                lemma_magnitude_grows(row, i - start);
            }
            return None;
        }
    }
    assert(row.take(i - start) =~= row);
    if negative {
        Some((-size) as i32)
    } else if size <= 2147483647 {
        Some(size as i32)
    } else {
        None
    }
}

/// The numeral of a natural number is a row of digits that stands for it.
pub proof fn lemma_digits(n: nat)
    ensures
        digits(n).len() > 0,
        forall|i: int| 0 <= i < digits(n).len() ==> is_digit(#[trigger] digits(n)[i]),
        magnitude(digits(n)) == n,
    decreases n,
{
    let d = (n % 10) as int;
    assert(is_digit(digit(d)) && digit(d) as nat - '0' as nat == d);
    if n < 10 {
        assert(digits(n).drop_last() =~= Seq::<char>::empty());
        assert(magnitude(Seq::<char>::empty()) == 0);
    } else {
        lemma_digits(n / 10);
        assert(digits(n).drop_last() =~= digits(n / 10));
    }
}

/// Reading back the numeral of a 32-bit integer gives that integer.
pub proof fn law_parse_undoes_decimal(n: i32)
    ensures
        i32_value(decimal(n as int)) == Some(n),
{
    let text = decimal(n as int);
    if n < 0 {
        lemma_digits((-n) as nat);
        assert(unsigned_part(text) =~= digits((-n) as nat));
    } else {
        lemma_digits(n as nat);
        assert(is_digit(text[0]));
        assert(unsigned_part(text) == text);
    }
}

/// A numeral holds digits only, but for the sign in front of a negative number.
pub proof fn lemma_decimal_chars(n: int)
    ensures
        decimal(n).len() > 0,
        forall|i: int|
            0 <= i < decimal(n).len() ==> is_digit(#[trigger] decimal(n)[i]) || decimal(n)[i]
                == '-',
{
    if n < 0 {
        lemma_digits((-n) as nat);
    } else {
        lemma_digits(n as nat);
    }
}

/// Different integers have different numerals.
pub proof fn law_decimal_injective(a: int, b: int)
    ensures
        decimal(a) == decimal(b) ==> a == b,
{
    if decimal(a) == decimal(b) {
        let size_a = if a < 0 { (-a) as nat } else { a as nat };
        let size_b = if b < 0 { (-b) as nat } else { b as nat };
        lemma_digits(size_a);
        lemma_digits(size_b);
        assert(is_digit(digits(size_a)[0]) && is_digit(digits(size_b)[0]));
        assert(decimal(a)[0] == decimal(b)[0]);
        assert(a < 0 ==> decimal(a).skip(1) =~= digits(size_a));
        assert(b < 0 ==> decimal(b).skip(1) =~= digits(size_b));
    }
}

/// The positional value of a row of decimal digits: the sum of its digits, each times the power
/// of ten of its place.
pub open spec fn positional(row: Seq<char>) -> int
    decreases row.len(),
{
    if row.len() == 0 {
        0
    } else {
        (row[0] as int - '0' as int) * pow(10, (row.len() - 1) as nat) + positional(row.skip(1))
    }
}

/// A digit behind a row makes it ten times as much, and the digit more.
proof fn lemma_positional_grows(row: Seq<char>)
    requires
        row.len() > 0,
    ensures
        positional(row) == positional(row.drop_last()) * 10 + (row.last() as int - '0' as int),
    decreases row.len(),
{
    reveal(pow);
    let front = row.drop_last();
    if row.len() == 1 {
        assert(row.skip(1) =~= Seq::<char>::empty());
        assert(front =~= Seq::<char>::empty());
        assert(positional(row.skip(1)) == 0 && positional(front) == 0);
        assert(pow(10, 0) == 1);
        assert((row[0] as int - '0' as int) * pow(10, 0) == row[0] as int - '0' as int)
            by (nonlinear_arith)
            requires
                pow(10, 0) == 1,
        ;
    } else {
        let d = row[0] as int - '0' as int;
        let p = pow(10, (row.len() - 2) as nat);
        lemma_positional_grows(row.skip(1));
        assert(row.skip(1).drop_last() =~= front.skip(1));
        assert(pow(10, (row.len() - 1) as nat) == 10 * p);
        assert(d * (10 * p) == (d * p) * 10) by (nonlinear_arith);
        assert(positional(row) == d * (10 * p) + positional(row.skip(1)));
        assert(front[0] == row[0]);
        assert(positional(front) == d * p + positional(front.skip(1)));
    }
}

/// Reading a row of digits from the left gives its positional value.
proof fn lemma_magnitude_is_positional(row: Seq<char>)
    requires
        forall|i: int| 0 <= i < row.len() ==> '0' <= #[trigger] row[i] <= '9',
    ensures
        magnitude(row) == positional(row),
    decreases row.len(),
{
    if row.len() > 0 {
        assert(forall|i: int| 0 <= i < row.drop_last().len() ==> row.drop_last()[i] == row[i]);
        assert(row.last() == row[row.len() - 1]);
        lemma_magnitude_is_positional(row.drop_last());
        lemma_positional_grows(row);
    }
}

/// A row of decimal digits is read as its positional value, and with a minus in front as the
/// negative of that; a plus changes nothing. What does not fit into 32 bits is not read.
pub proof fn law_numerals_are_read(row: Seq<char>)
    requires
        row.len() > 0,
        forall|i: int| 0 <= i < row.len() ==> '0' <= #[trigger] row[i] <= '9',
    ensures
        positional(row) >= 0,
        i32_value(row) == if positional(row) < 0x8000_0000 {
            Some(positional(row) as i32)
        } else {
            None
        },
        i32_value(seq!['+'] + row) == i32_value(row),
        i32_value(seq!['-'] + row) == if positional(row) <= 0x8000_0000 {
            Some((-positional(row)) as i32)
        } else {
            None
        },
{
    lemma_magnitude_is_positional(row);
    assert('0' <= row[0] <= '9');
    assert(unsigned_part(row) == row);
    assert((seq!['+'] + row).skip(1) =~= row);
    assert((seq!['-'] + row).skip(1) =~= row);
    assert forall|i: int| 0 <= i < row.len() implies is_digit(#[trigger] row[i]) by {
        assert('0' <= row[i] <= '9');
    }
}

/// Only numerals are read: a digit or a sign, then digits, and at least one digit in all.
pub proof fn law_only_numerals_are_read(text: Seq<char>)
    requires
        i32_value(text) is Some,
    ensures
        text.len() > 0,
        '0' <= text[0] <= '9' || (text.len() > 1 && (text[0] == '+' || text[0] == '-')),
        forall|i: int| 1 <= i < text.len() ==> '0' <= #[trigger] text[i] <= '9',
{
    let row = unsigned_part(text);
    assert(is_digit(row[0]));
    let n = text.len() - row.len();
    assert forall|i: int| 1 <= i < text.len() implies '0' <= #[trigger] text[i] <= '9' by {
        assert(is_digit(row[i - n]));
    }
}

/// The numeral that is written for a natural number is a row of digits whose positional value is
/// that number, without a zero in front; for a negative number it is the numeral of its opposite
/// behind a minus.
pub proof fn law_numerals_are_written(n: nat)
    ensures
        decimal(n as int).len() > 0,
        forall|i: int|
            0 <= i < decimal(n as int).len() ==> '0' <= #[trigger] decimal(n as int)[i] <= '9',
        positional(decimal(n as int)) == n,
        decimal(n as int).len() > 1 ==> decimal(n as int)[0] != '0',
        n > 0 ==> decimal(-n) == seq!['-'] + decimal(n as int),
{
    lemma_digits(n);
    lemma_no_leading_zero(n);
    assert forall|i: int| 0 <= i < decimal(n as int).len() implies '0' <= #[trigger] decimal(
        n as int,
    )[i] <= '9' by {
        assert(is_digit(digits(n)[i]));
    }
    lemma_magnitude_is_positional(decimal(n as int));
}

/// The numeral of a positive number begins with a digit other than zero.
proof fn lemma_no_leading_zero(n: nat)
    ensures
        digits(n).len() > 0,
        n > 0 ==> digits(n)[0] != '0',
        n < 10 ==> digits(n).len() == 1,
    decreases n,
{
    if n >= 10 {
        lemma_no_leading_zero(n / 10);
    }
}

/// What is read is the positional value of the digits, with its sign.
pub proof fn law_reading_goes_by_position(
    text: &str,
    row: Seq<char>,
    negative: bool,
    value: Option<i32>,
)
    requires
        call_ensures(parse_i32, (text,), value),
        row.len() > 0,
        forall|i: int| 0 <= i < row.len() ==> '0' <= #[trigger] row[i] <= '9',
        text@ == if negative {
            seq!['-'] + row
        } else {
            row
        },
        positional(row) < 0x8000_0000,
    ensures
        value == Some(
            (if negative {
                -positional(row)
            } else {
                positional(row)
            }) as i32,
        ),
{
    law_numerals_are_read(row);
}

/// What is written for a number are digits of its positional value, behind a minus if it is
/// negative.
pub proof fn law_writing_goes_by_position(n: i64, text: String)
    requires
        call_ensures(decimal_text, (n,), text),
    ensures
        n >= 0 ==> positional(text@) == n && '0' <= text@[0] <= '9',
        n < 0 ==> text@[0] == '-' && positional(text@.skip(1)) == -n,
        forall|i: int| 1 <= i < text@.len() ==> '0' <= #[trigger] text@[i] <= '9',
{
    let size = (if n < 0 {
        -n
    } else {
        n as int
    }) as nat;
    law_numerals_are_written(size);
    let row = decimal(size as int);
    if n < 0 {
        assert(text@.skip(1) =~= row);
        assert(forall|i: int| 1 <= i < text@.len() ==> text@[i] == row[i - 1]);
    }
    assert('0' <= row[0] <= '9');
}

} // verus!
