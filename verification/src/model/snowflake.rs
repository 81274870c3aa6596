//! The decimal text of identifiers: how a number is written, and how a
//! written number is read.
//!
//! On the wire an identifier is a string of decimal digits. Reading accepts
//! what the platform and other formats hand over: a text of digits with an
//! optional `+` in front, an unsigned number, or a signed number that is not
//! negative; in each case the number must not be zero.

use vstd::prelude::*;
use vstd::string::StringExecFns;

verus! {

/// The character that stands for a digit.
pub open spec fn digit_char(d: nat) -> char
    recommends
        d < 10,
{
    if d == 0 {
        '0'
    } else if d == 1 {
        '1'
    } else if d == 2 {
        '2'
    } else if d == 3 {
        '3'
    } else if d == 4 {
        '4'
    } else if d == 5 {
        '5'
    } else if d == 6 {
        '6'
    } else if d == 7 {
        '7'
    } else if d == 8 {
        '8'
    } else {
        '9'
    }
}

/// The digit that a character stands for, if it stands for one.
pub open spec fn digit_value(c: char) -> Option<nat> {
    if c == '0' {
        Some(0)
    } else if c == '1' {
        Some(1)
    } else if c == '2' {
        Some(2)
    } else if c == '3' {
        Some(3)
    } else if c == '4' {
        Some(4)
    } else if c == '5' {
        Some(5)
    } else if c == '6' {
        Some(6)
    } else if c == '7' {
        Some(7)
    } else if c == '8' {
        Some(8)
    } else if c == '9' {
        Some(9)
    } else {
        None
    }
}

/// The decimal text of a number: no sign, no leading zero, `0` for zero.
pub open spec fn decimal(n: nat) -> Seq<char>
    decreases n,
{
    if n < 10 {
        seq![digit_char(n)]
    } else {
        decimal(n / 10).push(digit_char(n % 10))
    }
}

/// Whether every character of a text is a digit.
pub open spec fn all_digits(text: Seq<char>) -> bool {
    forall|i: int| 0 <= i < text.len() ==> digit_value(#[trigger] text[i]) is Some
}

/// The number that a text of digits stands for; leading zeros count for
/// nothing.
pub open spec fn digits_value(text: Seq<char>) -> nat
    decreases text.len(),
{
    if text.len() == 0 {
        0
    } else {
        digits_value(text.drop_last()) * 10 + match digit_value(text.last()) {
            Some(d) => d,
            None => 0,
        }
    }
}

/// A text without the `+` that may stand in front of it.
pub open spec fn unsigned_part(text: Seq<char>) -> Seq<char> {
    if text.len() > 0 && text[0] == '+' {
        text.subrange(1, text.len() as int)
    } else {
        text
    }
}

/// The identifier that a text stands for: the text is one or more digits,
/// with or without a `+` in front, and the number they stand for is neither
/// zero nor too large for 64 bits.
pub open spec fn spec_parse_snowflake(text: Seq<char>) -> Option<u64> {
    let digits = unsigned_part(text);
    if digits.len() > 0 && all_digits(digits) && 0 < digits_value(digits) <= u64::MAX {
        Some(digits_value(digits) as u64)
    } else {
        None
    }
}

/// Why a value is no identifier.
#[derive(Clone, Copy, Debug, PartialEq, Eq, Structural)]
pub enum SnowflakeError {
    /// The number is zero.
    Zero,
    /// The number is negative.
    Negative,
    /// The text is no number that fits into 64 bits.
    NotANumber,
}

/// The decimal text of the number of an identifier is read back as that
/// number.
pub proof fn lemma_decimal_round_trip(n: u64)
    requires
        n != 0,
    ensures
        spec_parse_snowflake(decimal(n as nat)) == Some(n),
{
    lemma_decimal_reads_back(n as nat);
    assert(decimal(n as nat)[0] != '+') by {
        lemma_decimal_reads_back(n as nat);
        assert(digit_value(decimal(n as nat)[0]) is Some);
    }
}

/// The decimal text of a number is made of digits and stands for the number.
pub proof fn lemma_decimal_reads_back(n: nat)
    ensures
        decimal(n).len() > 0,
        all_digits(decimal(n)),
        digits_value(decimal(n)) == n,
    decreases n,
{
    if n < 10 {
        let text = decimal(n);
        assert(text.drop_last().len() == 0);
        assert(digits_value(text.drop_last()) == 0);
        assert(digit_value(digit_char(n)) == Some(n));
        assert(text.last() == digit_char(n));
    } else {
        lemma_decimal_reads_back(n / 10);
        let text = decimal(n);
        let shorter = decimal(n / 10);
        assert(text.drop_last() == shorter);
        assert(text.last() == digit_char(n % 10));
        assert(digit_value(digit_char(n % 10)) == Some(n % 10));
        assert forall|i: int| 0 <= i < text.len() implies digit_value(#[trigger] text[i]) is Some by {
            if i < shorter.len() {
                assert(text[i] == shorter[i]);
            }
        }
    }
}

/// The text of one digit.
fn digit_text(d: u8) -> (text: &'static str)
    requires
        d < 10,
    ensures
        text@ == seq![digit_char(d as nat)],
{
    proof {
        reveal_strlit("0");
        reveal_strlit("1");
        reveal_strlit("2");
        reveal_strlit("3");
        reveal_strlit("4");
        reveal_strlit("5");
        reveal_strlit("6");
        reveal_strlit("7");
        reveal_strlit("8");
        reveal_strlit("9");
    }
    let text = match d {
        0 => "0",
        1 => "1",
        2 => "2",
        3 => "3",
        4 => "4",
        5 => "5",
        6 => "6",
        7 => "7",
        8 => "8",
        _ => "9",
    };
    assert(text@ =~= seq![digit_char(d as nat)]);
    text
}

/// The characters of a list of digits that holds the lowest digit first.
pub open spec fn written(digits: Seq<u8>) -> Seq<char> {
    Seq::new(digits.len(), |i: int| digit_char(digits[digits.len() - 1 - i] as nat))
}

/// Appends the decimal text of `n` to `text`.
pub fn append_decimal(text: &mut String, n: u64)
    ensures
        final(text)@ == old(text)@ + decimal(n as nat),
{
    let mut digits: Vec<u8> = Vec::new();
    digits.push((n % 10) as u8);
    let mut rest: u64 = n / 10;
    proof {
        assert(written(digits@) =~= seq![digit_char((n % 10) as nat)]);
        if rest > 0 {
            assert(decimal(n as nat) =~= decimal(rest as nat) + written(digits@));
        }
    }
    while rest > 0
        invariant
            digits@.len() > 0,
            forall|i: int| 0 <= i < digits@.len() ==> digits@[i] < 10,
            rest > 0 ==> decimal(n as nat) == decimal(rest as nat) + written(digits@),
            rest == 0 ==> decimal(n as nat) == written(digits@),
        decreases rest,
    {
        let low = (rest % 10) as u8;
        let ghost before = digits@;
        digits.push(low);
        proof {
            assert(written(digits@) =~= seq![digit_char(low as nat)] + written(before));
            if rest < 10 {
                assert(decimal(rest as nat) =~= seq![digit_char(low as nat)]);
                assert(decimal(n as nat) =~= written(digits@));
            } else {
                assert(decimal(rest as nat) == decimal((rest / 10) as nat).push(
                    digit_char(low as nat),
                ));
                assert(decimal(n as nat) =~= decimal((rest / 10) as nat) + written(digits@));
            }
        }
        rest = rest / 10;
    }
    let mut i: usize = digits.len();
    while i > 0
        invariant
            i <= digits@.len(),
            forall|j: int| 0 <= j < digits@.len() ==> digits@[j] < 10,
            text@ == old(text)@ + written(digits@).subrange(0, digits@.len() - i),
        decreases i,
    {
        i = i - 1;
        let ghost before = text@;
        text.append(digit_text(digits[i]));
        proof {
            let all = written(digits@);
            let done = digits@.len() - i;
            assert(all.subrange(0, done) =~= all.subrange(0, done - 1).push(all[done - 1]));
            assert(text@ =~= old(text)@ + all.subrange(0, done));
        }
    }
    proof {
        assert(written(digits@).subrange(0, digits@.len() as int) =~= written(digits@));
    }
}

/// The decimal text of `n`.
pub fn to_decimal(n: u64) -> (text: String)
    ensures
        text@ == decimal(n as nat),
{
    let mut text = String::new();
    append_decimal(&mut text, n);
    assert(text@ =~= decimal(n as nat));
    text
}

/// The digit that a character stands for, if it stands for one.
fn digit_of(c: char) -> (digit: Option<u8>)
    ensures
        match digit {
            Some(d) => digit_value(c) == Some(d as nat) && d < 10,
            None => digit_value(c) is None,
        },
{
    match c {
        '0' => Some(0),
        '1' => Some(1),
        '2' => Some(2),
        '3' => Some(3),
        '4' => Some(4),
        '5' => Some(5),
        '6' => Some(6),
        '7' => Some(7),
        '8' => Some(8),
        '9' => Some(9),
        _ => None,
    }
}

/// Reads an identifier from an unsigned number: every number but zero is
/// one.
pub fn visit_u64(value: u64) -> (read: Result<u64, SnowflakeError>)
    ensures
        read == if value == 0 {
            Err::<u64, SnowflakeError>(SnowflakeError::Zero)
        } else {
            Ok::<u64, SnowflakeError>(value)
        },
{
    if value == 0 {
        Err(SnowflakeError::Zero)
    } else {
        Ok(value)
    }
}

/// Reads an identifier from a signed number: a negative number is refused,
/// and so is zero.
pub fn visit_i64(value: i64) -> (read: Result<u64, SnowflakeError>)
    ensures
        read == if value < 0 {
            Err::<u64, SnowflakeError>(SnowflakeError::Negative)
        } else if value == 0 {
            Err::<u64, SnowflakeError>(SnowflakeError::Zero)
        } else {
            Ok::<u64, SnowflakeError>(value as u64)
        },
{
    if value < 0 {
        Err(SnowflakeError::Negative)
    } else {
        visit_u64(value as u64)
    }
}

/// What appending one character does to the value of a text of digits.
proof fn lemma_value_step(text: Seq<char>, k: int)
    requires
        0 <= k < text.len(),
    ensures
        digits_value(text.take(k + 1)) == digits_value(text.take(k)) * 10 + match digit_value(
            text[k],
        ) {
            Some(d) => d,
            None => 0,
        },
{
    let longer = text.take(k + 1);
    assert(longer.drop_last() == text.take(k));
    assert(longer.last() == text[k]);
}

/// The value of a text of digits never shrinks when the text grows.
proof fn lemma_value_grows(text: Seq<char>, k: int)
    requires
        0 <= k <= text.len(),
    ensures
        digits_value(text.take(k)) <= digits_value(text),
    decreases text.len() - k,
{
    if k < text.len() {
        lemma_value_step(text, k);
        lemma_value_grows(text, k + 1);
    } else {
        assert(text.take(k) == text);
    }
}

/// Reads an identifier from its text.
pub fn visit_str(value: &str) -> (read: Result<u64, SnowflakeError>)
    ensures
        match read {
            Ok(id) => spec_parse_snowflake(value@) == Some(id),
            Err(error) => spec_parse_snowflake(value@) is None && (error == if all_digits(
                unsigned_part(value@),
            ) && unsigned_part(value@).len() > 0 && digits_value(unsigned_part(value@)) == 0 {
                SnowflakeError::Zero
            } else {
                SnowflakeError::NotANumber
            }),
        },
{
    let len = value.unicode_len();
    if len == 0 {
        return Err(SnowflakeError::NotANumber);
    }
    let start: usize = if value.get_char(0) == '+' {
        1
    } else {
        0
    };
    if start == len {
        return Err(SnowflakeError::NotANumber);
    }
    let ghost digits = unsigned_part(value@);
    let mut total: u64 = 0;
    let mut i: usize = start;
    proof {
        assert(digits.take(0).len() == 0);
    }
    while i < len
        invariant
            start <= i <= len,
            len == value@.len(),
            start <= 1,
            digits == unsigned_part(value@),
            digits.len() == len - start,
            forall|j: int| 0 <= j < digits.len() ==> digits[j] == value@[j + start],
            all_digits(digits.take(i - start)),
            total == digits_value(digits.take(i - start)),
        decreases len - i,
    {
        let c = value.get_char(i);
        let ghost k = i - start;
        proof {
            lemma_value_step(digits, k);
        }
        match digit_of(c) {
            None => {
                assert(digit_value(digits[k]) is None);
                return Err(SnowflakeError::NotANumber);
            },
            Some(d) => {
                if total > (u64::MAX - d as u64) / 10 {
                    proof {
                        lemma_value_grows(digits, k + 1);
                        assert(total * 10 + d > u64::MAX) by (nonlinear_arith)
                            requires
                                total > (u64::MAX - d as u64) / 10,
                                d < 10,
                        ;
                    }
                    return Err(SnowflakeError::NotANumber);
                }
                assert(total * 10 + d <= u64::MAX) by (nonlinear_arith)
                    requires
                        total <= (u64::MAX - d as u64) / 10,
                        d < 10,
                ;
                total = total * 10 + d as u64;
                proof {
                    let longer = digits.take(k + 1);
                    assert forall|j: int| 0 <= j < longer.len() implies digit_value(
                        #[trigger] longer[j],
                    ) is Some by {
                        if j < k {
                            assert(longer[j] == digits.take(k)[j]);
                        }
                    }
                }
            },
        }
        i = i + 1;
    }
    proof {
        assert(digits.take(len - start) == digits);
    }
    if total == 0 {
        Err(SnowflakeError::Zero)
    } else {
        Ok(total)
    }
}

} // verus!
