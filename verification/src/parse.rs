//! Parsers for the typed fields of an action: truth values, 32-bit integers
//! and durations in whole hours.

use vstd::prelude::*;
use crate::error::{IntegerError, ParseError};
use crate::text::{chars_of, decimal_text, integer_text, is_word, lower, to_lower};

verus! {

/// The truth value that a text spells, if any. Upper and lower case count
/// alike.
pub open spec fn bool_of(v: Seq<char>) -> Result<bool, ParseError> {
    let l = lower(v);
    if l == "true"@ || l == "t"@ || l == "y"@ {
        Ok(true)
    } else if l == "false"@ || l == "f"@ || l == "n"@ {
        Ok(false)
    } else {
        Err(ParseError::InvalidBoolean)
    }
}

/// Reads a truth value: `true`, `t`, `y`, `false`, `f` or `n`, in either case.
pub fn parse_bool(v: &str) -> (out: Result<bool, ParseError>)
    ensures
        out == bool_of(v@),
{
    let chars = chars_of(v);
    let l = to_lower(&chars);
    if is_word(&l, "true") || is_word(&l, "t") || is_word(&l, "y") {
        Ok(true)
    } else if is_word(&l, "false") || is_word(&l, "f") || is_word(&l, "n") {
        Ok(false)
    } else {
        Err(ParseError::InvalidBoolean)
    }
}

pub open spec fn is_digit(c: char) -> bool {
    '0' <= c && c <= '9'
}

pub open spec fn digit_of(c: char) -> int {
    c as int - '0' as int
}

/// Reads decimal digits from the left, adding each digit to ten times the
/// value so far, or taking it away where `negative` is set. The first
/// character that is no digit, or the first digit that takes the value out
/// of the 32-bit range, decides the error.
pub open spec fn scan_digits(digits: Seq<char>, negative: bool) -> Result<int, IntegerError>
    decreases digits.len(),
{
    if digits.len() == 0 {
        Ok(0int)
    } else {
        match scan_digits(digits.drop_last(), negative) {
            Err(e) => Err(e),
            Ok(acc) => {
                let c = digits.last();
                let next = if negative {
                    acc * 10 - digit_of(c)
                } else {
                    acc * 10 + digit_of(c)
                };
                if !is_digit(c) {
                    Err(IntegerError::InvalidDigit)
                } else if next > i32::MAX {
                    Err(IntegerError::PosOverflow)
                } else if next < i32::MIN {
                    Err(IntegerError::NegOverflow)
                } else {
                    Ok(next)
                }
            },
        }
    }
}

/// The 32-bit integer that a text spells in base ten: an optional `+` or `-`
/// and then at least one digit, nothing else.
pub open spec fn int_of(s: Seq<char>) -> Result<i32, IntegerError> {
    if s.len() == 0 {
        Err(IntegerError::Empty)
    } else {
        let signed = s[0] == '+' || s[0] == '-';
        let digits = if signed {
            s.skip(1)
        } else {
            s
        };
        if digits.len() == 0 {
            Err(IntegerError::InvalidDigit)
        } else {
            match scan_digits(digits, s[0] == '-') {
                Ok(v) => Ok(v as i32),
                Err(e) => Err(e),
            }
        }
    }
}

/// A scan that has failed on a prefix fails in the same way on the whole.
pub proof fn lemma_scan_error_stays(digits: Seq<char>, negative: bool, n: int)
    requires
        0 <= n <= digits.len(),
        scan_digits(digits.take(n), negative) is Err,
    ensures
        scan_digits(digits, negative) == scan_digits(digits.take(n), negative),
    decreases digits.len() - n,
{
    if n < digits.len() {
        assert(digits.take(n + 1).drop_last() == digits.take(n));
        lemma_scan_error_stays(digits, negative, n + 1);
    } else {
        assert(digits.take(n) == digits);
    }
}

/// Every character of the text is a decimal digit.
pub open spec fn all_digits(s: Seq<char>) -> bool {
    forall|i: int| 0 <= i < s.len() ==> is_digit(#[trigger] s[i])
}

/// The number that a run of decimal digits spells.
pub open spec fn number_of(digits: Seq<char>) -> int
    decreases digits.len(),
{
    if digits.len() == 0 {
        0
    } else {
        number_of(digits.drop_last()) * 10 + digit_of(digits.last())
    }
}

/// The number that a run of digits spells under a sign.
pub open spec fn signed(digits: Seq<char>, negative: bool) -> int {
    if negative {
        -number_of(digits)
    } else {
        number_of(digits)
    }
}

/// The number that a run of digits spells is not below zero, and not below
/// the number that the run without its last digit spells.
pub proof fn lemma_number_grows(digits: Seq<char>)
    requires
        all_digits(digits),
    ensures
        number_of(digits) >= 0,
        digits.len() > 0 ==> number_of(digits) >= number_of(digits.drop_last()),
    decreases digits.len(),
{
    if digits.len() > 0 {
        assert(is_digit(digits[digits.len() - 1]));
        assert(all_digits(digits.drop_last())) by {
            assert forall|i: int| 0 <= i < digits.drop_last().len() implies is_digit(
                #[trigger] digits.drop_last()[i],
            ) by {
                assert(is_digit(digits[i]));
            }
        }
        lemma_number_grows(digits.drop_last());
    }
}

/// A scan succeeds exactly on a run of digits whose number, under the sign,
/// fits in 32 bits, and then it gives that number. So an integer is read
/// exactly from a valid integer in base ten that is in range.
pub proof fn lemma_scan_reads_the_number(digits: Seq<char>, negative: bool)
    ensures
        scan_digits(digits, negative) is Ok <==> all_digits(digits) && i32::MIN <= signed(
            digits,
            negative,
        ) <= i32::MAX,
        scan_digits(digits, negative) is Ok ==> scan_digits(digits, negative)->Ok_0 == signed(
            digits,
            negative,
        ),
    decreases digits.len(),
{
    if digits.len() > 0 {
        let front = digits.drop_last();
        lemma_scan_reads_the_number(front, negative);
        if all_digits(digits) {
            lemma_number_grows(digits);
            assert(all_digits(front)) by {
                assert forall|i: int| 0 <= i < front.len() implies is_digit(#[trigger] front[i]) by {
                    assert(is_digit(digits[i]));
                }
            }
            lemma_number_grows(front);
            assert(is_digit(digits[digits.len() - 1]));
        }
        if scan_digits(digits, negative) is Ok {
            assert forall|i: int| 0 <= i < digits.len() implies is_digit(#[trigger] digits[i]) by {
                if i < front.len() {
                    assert(is_digit(front[i]));
                }
            }
        }
    }
}

/// The digits of a text that may start with a sign.
pub open spec fn digits_of(s: Seq<char>) -> Seq<char> {
    if s.len() > 0 && (s[0] == '+' || s[0] == '-') {
        s.skip(1)
    } else {
        s
    }
}

/// The text is an integer in base ten: an optional sign and then one digit
/// or more.
pub open spec fn is_integer(s: Seq<char>) -> bool {
    digits_of(s).len() > 0 && all_digits(digits_of(s))
}

/// The number that an integer in base ten spells.
pub open spec fn integer_of(s: Seq<char>) -> int {
    signed(digits_of(s), s.len() > 0 && s[0] == '-')
}

/// A text is read as an integer exactly where it is an integer in base ten
/// whose number fits in 32 bits, and it is read as that number.
pub proof fn lemma_valid_integers_are_read(s: Seq<char>)
    ensures
        int_of(s) is Ok <==> is_integer(s) && i32::MIN <= integer_of(s) <= i32::MAX,
        int_of(s) is Ok ==> int_of(s)->Ok_0 == integer_of(s),
{
    if s.len() > 0 {
        lemma_scan_reads_the_number(digits_of(s), s[0] == '-');
    }
}

/// A number written in base ten is a run of digits, one at least, that
/// spells the number.
pub proof fn lemma_written_numbers_are_digits(n: nat)
    ensures
        decimal_text(n).len() > 0,
        all_digits(decimal_text(n)),
        number_of(decimal_text(n)) == n,
    decreases n,
{
    if n >= 10 {
        lemma_written_numbers_are_digits(n / 10);
        let front = decimal_text(n / 10);
        let text = decimal_text(n);
        assert(text.drop_last() == front);
        assert forall|i: int| 0 <= i < text.len() implies is_digit(#[trigger] text[i]) by {
            if i < front.len() {
                assert(is_digit(front[i]));
            }
        }
    } else {
        assert(decimal_text(n).drop_last() == Seq::<char>::empty());
        assert(number_of(decimal_text(n).drop_last()) == 0);
    }
}

/// What is written is read back: every 32-bit integer, written in base ten
/// with its sign, is read as itself.
pub proof fn lemma_written_integers_are_read(n: i32)
    ensures
        int_of(integer_text(n as int)) == Ok::<i32, IntegerError>(n),
{
    let text = integer_text(n as int);
    if n >= 0 {
        lemma_written_numbers_are_digits(n as nat);
        assert(is_digit(text[0]));
        assert(digits_of(text) == text);
    } else {
        reveal_strlit("-");
        lemma_written_numbers_are_digits((-n) as nat);
        assert(text[0] == '-');
        assert(text.skip(1) == decimal_text((-n) as nat));
    }
    lemma_valid_integers_are_read(text);
}

/// Reads the digits in `s` from position `from` on.
fn parse_digits(s: &Vec<char>, from: usize, negative: bool) -> (out: Result<i32, IntegerError>)
    requires
        from <= s.len(),
    ensures
        match scan_digits(s@.skip(from as int), negative) {
            Ok(v) => out == Ok::<i32, IntegerError>(v as i32) && i32::MIN <= v <= i32::MAX,
            Err(e) => out == Err::<i32, IntegerError>(e),
        },
{
    let ghost digits = s@.skip(from as int);
    let mut acc: i32 = 0;
    let mut i: usize = from;
    assert(digits.take(0) == Seq::<char>::empty());
    while i < s.len()
        invariant
            from <= i <= s.len(),
            digits == s@.skip(from as int),
            scan_digits(digits.take(i - from), negative) == Ok::<int, IntegerError>(acc as int),
        decreases s.len() - i,
    {
        let c = s[i];
        let ghost n = i - from;
        proof {
            assert(digits.take(n + 1).drop_last() == digits.take(n));
            assert(digits.take(n + 1).last() == c);
        }
        if !('0' <= c && c <= '9') {
            proof {
                lemma_scan_error_stays(digits, negative, n + 1);
            }
            return Err(IntegerError::InvalidDigit);
        }
        let d: i64 = (c as u32 - '0' as u32) as i64;
        let next: i64 = if negative {
            acc as i64 * 10 - d
        } else {
            acc as i64 * 10 + d
        };
        if next > i32::MAX as i64 {
            proof {
                lemma_scan_error_stays(digits, negative, n + 1);
            }
            return Err(IntegerError::PosOverflow);
        }
        if next < i32::MIN as i64 {
            proof {
                lemma_scan_error_stays(digits, negative, n + 1);
            }
            return Err(IntegerError::NegOverflow);
        }
        acc = next as i32;
        i += 1;
    }
    assert(digits.take(s.len() - from) == digits);
    Ok(acc)
}

/// Reads a 32-bit signed integer written in base ten.
pub fn parse_int(s: &Vec<char>) -> (out: Result<i32, IntegerError>)
    ensures
        out == int_of(s@),
{
    if s.len() == 0 {
        return Err(IntegerError::Empty);
    }
    let first = s[0];
    let signed = first == '+' || first == '-';
    let from: usize = if signed {
        1
    } else {
        0
    };
    assert(s@.skip(0) == s@);
    if s.len() - from == 0 {
        return Err(IntegerError::InvalidDigit);
    }
    parse_digits(s, from, first == '-')
}

/// Reads a 32-bit signed integer written in base ten.
pub fn parse_i32(v: &str) -> (out: Result<i32, ParseError>)
    ensures
        out == match int_of(v@) {
            Ok(n) => Ok::<i32, ParseError>(n),
            Err(e) => Err::<i32, ParseError>(ParseError::Integer(e)),
        },
{
    let chars = chars_of(v);
    match parse_int(&chars) {
        Ok(n) => Ok(n),
        Err(e) => Err(ParseError::Integer(e)),
    }
}

/// The text holds exactly one space, and it stands at position `at`.
pub open spec fn splits_at(v: Seq<char>, at: int) -> bool {
    &&& 0 <= at < v.len()
    &&& v[at] == ' '
    &&& forall|j: int| 0 <= j < v.len() && j != at ==> v[j] != ' '
}

/// The two parts around the only space of a text: what stands before it and
/// what stands after it. A text with no space, or with more than one, has
/// no such parts.
pub open spec fn split_once(v: Seq<char>) -> Option<(Seq<char>, Seq<char>)> {
    if exists|at: int| splits_at(v, at) {
        let at = choose|at: int| splits_at(v, at);
        Some((v.take(at), v.skip(at + 1)))
    } else {
        None
    }
}

/// The number of hours in one unit of time, by the unit's name: a year has
/// 365 days, a month 30, a week 7.
pub open spec fn unit_hours(u: Seq<char>) -> Option<int> {
    if u == "years"@ || u == "year"@ || u == "y"@ {
        Some(365 * 24int)
    } else if u == "months"@ || u == "month"@ || u == "mo"@ || u == "m"@ {
        Some(30 * 24int)
    } else if u == "weeks"@ || u == "week"@ || u == "w"@ {
        Some(7 * 24int)
    } else if u == "days"@ || u == "day"@ || u == "d"@ {
        Some(24)
    } else if u == "hours"@ || u == "hour"@ || u == "hrs"@ || u == "hr"@ || u == "h"@ {
        Some(1)
    } else {
        None
    }
}

/// The whole number of hours that a text such as `2 weeks` stands for. The
/// number is read before the unit is looked at, so a bad number is reported
/// even where the unit is bad too.
pub open spec fn hours_of(v: Seq<char>) -> Result<i32, ParseError> {
    match split_once(v) {
        None => Err(ParseError::DurationFormat),
        Some((number, unit)) => match int_of(number) {
            Err(e) => Err(ParseError::Integer(e)),
            Ok(n) => match unit_hours(unit) {
                None => Err(ParseError::DurationUnit),
                Some(h) => if i32::MIN <= n * h <= i32::MAX {
                    Ok((n * h) as i32)
                } else {
                    Err(ParseError::DurationRange)
                },
            },
        },
    }
}

/// The position of the only space in `v`, if there is exactly one.
fn find_split(v: &Vec<char>) -> (out: Option<usize>)
    ensures
        match out {
            Some(at) => at < v.len() && splits_at(v@, at as int),
            None => forall|at: int| !splits_at(v@, at),
        },
{
    let mut found: Option<usize> = None;
    let mut i: usize = 0;
    while i < v.len()
        invariant
            i <= v.len(),
            match found {
                Some(at) => at < i && v@[at as int] == ' ' && forall|j: int|
                    0 <= j < i && j != at ==> v@[j] != ' ',
                None => forall|j: int| 0 <= j < i ==> v@[j] != ' ',
            },
        decreases v.len() - i,
    {
        if v[i] == ' ' {
            match found {
                Some(at) => {
                    return None;
                },
                None => {
                    found = Some(i);
                },
            }
        }
        i += 1;
    }
    found
}

/// A copy of the characters of `v` from `from` up to `to`.
fn part(v: &Vec<char>, from: usize, to: usize) -> (out: Vec<char>)
    requires
        from <= to <= v.len(),
    ensures
        out@ == v@.subrange(from as int, to as int),
{
    let mut out: Vec<char> = Vec::new();
    let mut i: usize = from;
    while i < to
        invariant
            from <= i <= to <= v.len(),
            out@ == v@.subrange(from as int, i as int),
        decreases to - i,
    {
        out.push(v[i]);
        i += 1;
    }
    out
}

/// Looks a unit of time up by its name.
fn hours_per_unit(u: &Vec<char>) -> (out: Option<i32>)
    ensures
        match unit_hours(u@) {
            Some(h) => out == Some(h as i32) && 1 <= h <= 8760,
            None => out is None,
        },
{
    if is_word(u, "years") || is_word(u, "year") || is_word(u, "y") {
        Some(8760)
    } else if is_word(u, "months") || is_word(u, "month") || is_word(u, "mo") || is_word(u, "m") {
        Some(720)
    } else if is_word(u, "weeks") || is_word(u, "week") || is_word(u, "w") {
        Some(168)
    } else if is_word(u, "days") || is_word(u, "day") || is_word(u, "d") {
        Some(24)
    } else if is_word(u, "hours") || is_word(u, "hour") || is_word(u, "hrs") || is_word(u, "hr")
        || is_word(u, "h") {
        Some(1)
    } else {
        None
    }
}

/// Reads a duration written as a number, one space and a unit, and gives it
/// in whole hours. The units are years, months, weeks, days and hours, each
/// under a few spellings.
pub fn parse_hrs(v: &str) -> (out: Result<i32, ParseError>)
    ensures
        out == hours_of(v@),
{
    let chars = chars_of(v);
    let at = match find_split(&chars) {
        Some(at) => at,
        None => {
            return Err(ParseError::DurationFormat);
        },
    };
    assert(splits_at(chars@, at as int));
    let number = part(&chars, 0, at);
    let unit = part(&chars, at + 1, chars.len());
    assert(split_once(chars@) == Some((number@, unit@)));
    let time = match parse_int(&number) {
        Ok(n) => n,
        Err(e) => {
            return Err(ParseError::Integer(e));
        },
    };
    let per = match hours_per_unit(&unit) {
        Some(h) => h,
        None => {
            return Err(ParseError::DurationUnit);
        },
    };
    assert(-2147483648 * 8760 <= time * per <= 2147483647 * 8760) by (nonlinear_arith)
        requires
            -2147483648 <= time <= 2147483647,
            1 <= per <= 8760,
    ;
    let hours: i64 = time as i64 * per as i64;
    if hours < i32::MIN as i64 || hours > i32::MAX as i64 {
        return Err(ParseError::DurationRange);
    }
    Ok(hours as i32)
}

/// The number that an id spells: the text is a run of decimal digits, one
/// at least, whose number fits in 64 bits. An id carries no sign.
pub open spec fn id_of(s: Seq<char>) -> Option<u64> {
    if s.len() > 0 && all_digits(s) && number_of(s) <= u64::MAX {
        Some(number_of(s) as u64)
    } else {
        None
    }
}

/// The number that the first digits of a run spell is not above the number
/// that the whole run spells.
pub proof fn lemma_prefix_number(digits: Seq<char>, n: int)
    requires
        all_digits(digits),
        0 <= n <= digits.len(),
    ensures
        0 <= number_of(digits.take(n)) <= number_of(digits),
    decreases digits.len() - n,
{
    assert(all_digits(digits.take(n))) by {
        assert forall|i: int| 0 <= i < digits.take(n).len() implies is_digit(
            #[trigger] digits.take(n)[i],
        ) by {
            assert(is_digit(digits[i]));
        }
    }
    lemma_number_grows(digits.take(n));
    if n < digits.len() {
        lemma_prefix_number(digits, n + 1);
        assert(all_digits(digits.take(n + 1))) by {
            assert forall|i: int| 0 <= i < digits.take(n + 1).len() implies is_digit(
                #[trigger] digits.take(n + 1)[i],
            ) by {
                assert(is_digit(digits[i]));
            }
        }
        lemma_number_grows(digits.take(n + 1));
        assert(digits.take(n + 1).drop_last() == digits.take(n));
    } else {
        assert(digits.take(n) == digits);
    }
}

/// Reads an id: a number in base ten with no sign that fits in 64 bits.
pub fn parse_id(v: &str) -> (out: Option<u64>)
    ensures
        out == id_of(v@),
{
    let s = chars_of(v);
    if s.len() == 0 {
        return None;
    }
    let mut acc: u64 = 0;
    let mut i: usize = 0;
    assert(s@.take(0) == Seq::<char>::empty());
    while i < s.len()
        invariant
            i <= s.len(),
            s@ == v@,
            all_digits(s@.take(i as int)),
            acc == number_of(s@.take(i as int)),
        decreases s.len() - i,
    {
        let c = s[i];
        proof {
            assert(s@.take(i + 1).drop_last() == s@.take(i as int));
            assert(s@.take(i + 1).last() == c);
        }
        if !('0' <= c && c <= '9') {
            assert(!is_digit(s@[i as int]));
            return None;
        }
        let d: u64 = (c as u32 - '0' as u32) as u64;
        proof {
            assert forall|j: int| 0 <= j < s@.take(i + 1).len() implies is_digit(
                #[trigger] s@.take(i + 1)[j],
            ) by {
                if j < i {
                    assert(is_digit(s@.take(i as int)[j]));
                }
            }
        }
        if acc > (u64::MAX - d) / 10 {
            proof {
                if all_digits(s@) {
                    lemma_prefix_number(s@, i + 1);
                }
            }
            return None;
        }
        acc = acc * 10 + d;
        i += 1;
    }
    assert(s@.take(s.len() as int) == s@);
    Some(acc)
}

/// Two weeks are 336 hours.
pub proof fn lemma_two_weeks()
    ensures
        hours_of("2 weeks"@) == Ok::<i32, ParseError>(336),
{
    let v = "2 weeks"@;
    reveal_strlit("2 weeks");
    reveal_strlit("weeks");
    reveal_strlit("years");
    reveal_strlit("year");
    reveal_strlit("y");
    reveal_strlit("months");
    reveal_strlit("month");
    reveal_strlit("mo");
    reveal_strlit("m");
    assert(splits_at(v, 1));
    let at = choose|at: int| splits_at(v, at);
    assert(at == 1);
    let number = v.take(1);
    let unit = v.skip(2);
    assert(unit =~= "weeks"@);
    assert(number.len() == 1 && number[0] == '2');
    assert(number.drop_last() =~= Seq::<char>::empty());
    assert(scan_digits(number.drop_last(), false) == Ok::<int, IntegerError>(0)) by {
        reveal_with_fuel(scan_digits, 2);
    }
    assert(scan_digits(number, false) == Ok::<int, IntegerError>(2)) by {
        reveal_with_fuel(scan_digits, 2);
    }
    assert(int_of(number) == Ok::<i32, IntegerError>(2));
    assert(unit == "weeks"@);
    assert("weeks"@[0] == 'w' && "weeks"@.len() == 5);
    assert("years"@[0] == 'y' && "year"@.len() == 4 && "y"@.len() == 1);
    assert("months"@.len() == 6 && "month"@[0] == 'm' && "mo"@.len() == 2 && "m"@.len() == 1);
    assert(unit_hours(unit) == Some(168int));
    assert(split_once(v) == Some((number, unit)));
    assert(2 * 168 == 336);
    assert(hours_of(v) == Ok::<i32, ParseError>(336));
}

} // verus!
