//! Decoders for the fields whose wire form is not their meaning: numbers
//! sent as text, a range sent as one text, and dates in two forms.

use crate::errors::DecodeError;
use crate::outside::calendar_date;
use crate::outside::full_timestamp;
use crate::outside::parse_calendar_date;
use crate::outside::parse_full_timestamp;
use crate::timestamp::Timestamp;
use vstd::prelude::*;

verus! {

/// A number kept as the text that was sent. The text is one that the
/// standard library reads as a floating-point number.
#[derive(Debug)]
pub struct Numeric {
    pub text: String,
}

impl View for Numeric {
    type V = Seq<char>;

    open spec fn view(&self) -> Seq<char> {
        self.text@
    }
}

impl Numeric {
    /// The text is a number.
    pub open spec fn wf(self) -> bool {
        is_float_text(self@)
    }

    /// The number zero.
    pub fn zero() -> (n: Numeric)
        ensures
            n@ == "0"@,
            n.wf(),
    {
        proof {
            reveal_strlit("0");
            reveal_with_fuel(digits_end, 3);
            assert("0"@.len() == 1 && "0"@[0] == '0');
            assert(digits_end("0"@, 0) == 1);
            assert(is_number_from("0"@, 0));
        }
        Numeric { text: String::from_str("0") }
    }

    /// The text as it was sent.
    pub fn as_str(&self) -> (s: &str)
        ensures
            s@ == self@,
    {
        self.text.as_str()
    }
}

/// The text of an optional number.
pub open spec fn numeric_view(n: Option<Numeric>) -> Option<Seq<char>> {
    match n {
        Some(x) => Some(x@),
        None => None,
    }
}

/// A pair of numbers sent as `"<low> - <high>"`.
#[derive(Debug)]
pub struct NumericRange {
    pub start: Numeric,
    pub end: Numeric,
}

pub open spec fn is_digit(c: char) -> bool {
    c == '0' || c == '1' || c == '2' || c == '3' || c == '4' || c == '5' || c == '6' || c == '7'
        || c == '8' || c == '9'
}

pub open spec fn is_sign(c: char) -> bool {
    c == '+' || c == '-'
}

/// The index behind the run of digits that starts at `i`.
pub open spec fn digits_end(s: Seq<char>, i: int) -> int
    decreases s.len() - i,
{
    if 0 <= i < s.len() && is_digit(s[i]) {
        digits_end(s, i + 1)
    } else {
        i
    }
}

/// The index behind an optional sign at `i`.
pub open spec fn sign_end(s: Seq<char>, i: int) -> int {
    if 0 <= i < s.len() && is_sign(s[i]) {
        i + 1
    } else {
        i
    }
}

pub open spec fn letter(s: Seq<char>, i: int, lower: char, upper: char) -> bool {
    s[i] == lower || s[i] == upper
}

pub open spec fn inf_at(s: Seq<char>, i: int) -> bool {
    letter(s, i, 'i', 'I') && letter(s, i + 1, 'n', 'N') && letter(s, i + 2, 'f', 'F')
}

/// From `i` to its end the text is `nan`, `inf` or `infinity`, in any case
/// of the letters.
pub open spec fn is_special_from(s: Seq<char>, i: int) -> bool {
    ||| (s.len() == i + 3 && letter(s, i, 'n', 'N') && letter(s, i + 1, 'a', 'A') && letter(
        s,
        i + 2,
        'n',
        'N',
    ))
    ||| (s.len() == i + 3 && inf_at(s, i))
    ||| (s.len() == i + 8 && inf_at(s, i) && letter(s, i + 3, 'i', 'I') && letter(
        s,
        i + 4,
        'n',
        'N',
    ) && letter(s, i + 5, 'i', 'I') && letter(s, i + 6, 't', 'T') && letter(s, i + 7, 'y', 'Y'))
}

/// From `i` to its end the text is an exponent: `e`, an optional sign, and
/// at least one digit.
pub open spec fn is_exponent_from(s: Seq<char>, i: int) -> bool {
    0 <= i < s.len() && (s[i] == 'e' || s[i] == 'E') && {
        let j = sign_end(s, i + 1);
        digits_end(s, j) > j && digits_end(s, j) == s.len()
    }
}

/// From `i` to its end the text is digits with at most one point among
/// them, at least one digit in all, and an optional exponent.
pub open spec fn is_number_from(s: Seq<char>, i: int) -> bool {
    let whole_end = digits_end(s, i);
    let pointed = 0 <= whole_end < s.len() && s[whole_end] == '.';
    let mantissa_end = if pointed {
        digits_end(s, whole_end + 1)
    } else {
        whole_end
    };
    let digits = if pointed {
        mantissa_end - i - 1
    } else {
        mantissa_end - i
    };
    digits >= 1 && (mantissa_end == s.len() || is_exponent_from(s, mantissa_end))
}

/// The text is a floating-point number as the standard library reads one:
/// an optional sign, then a decimal number or one of the special words. No
/// spaces are allowed.
pub open spec fn is_float_text(s: Seq<char>) -> bool {
    let start = sign_end(s, 0);
    is_special_from(s, start) || is_number_from(s, start)
}

/// The separator of a range stands at `i`.
pub open spec fn separator_at(s: Seq<char>, i: int) -> bool {
    0 <= i && i + 3 <= s.len() && s[i] == ' ' && s[i + 1] == '-' && s[i + 2] == ' '
}

/// The first place at or behind `from` where the separator stands.
pub open spec fn first_separator(s: Seq<char>, from: int) -> Option<int>
    decreases s.len() - from,
{
    if from < 0 || from + 3 > s.len() {
        None
    } else if separator_at(s, from) {
        Some(from)
    } else {
        first_separator(s, from + 1)
    }
}

/// `first_separator` finds the least place where the separator stands, and
/// finds nothing only where it stands nowhere.
pub proof fn lemma_first_separator_is_least(s: Seq<char>, from: int)
    requires
        0 <= from,
    ensures
        match first_separator(s, from) {
            Some(i) => from <= i && separator_at(s, i) && forall|j: int|
                from <= j < i ==> !separator_at(s, j),
            None => forall|j: int| from <= j ==> !separator_at(s, j),
        },
    decreases s.len() - from,
{
    if from + 3 <= s.len() && !separator_at(s, from) {
        lemma_first_separator_is_least(s, from + 1);
    }
}

/// What a range text decodes to.
pub enum RangeOutcome {
    /// Both sides are numbers.
    Parts(Seq<char>, Seq<char>),
    /// The separator stands nowhere in the text.
    NoSeparator,
    /// The text before the first separator is not a number.
    BadLow(Seq<char>),
    /// The text behind the first separator is not a number.
    BadHigh(Seq<char>),
}

/// The text is cut at the first separator; the low side is judged before
/// the high side.
pub open spec fn range_outcome(s: Seq<char>) -> RangeOutcome {
    match first_separator(s, 0) {
        None => RangeOutcome::NoSeparator,
        Some(i) => {
            let low = s.subrange(0, i);
            let high = s.subrange(i + 3, s.len() as int);
            if !is_float_text(low) {
                RangeOutcome::BadLow(low)
            } else if !is_float_text(high) {
                RangeOutcome::BadHigh(high)
            } else {
                RangeOutcome::Parts(low, high)
            }
        },
    }
}

pub open spec fn range_agrees(r: Result<NumericRange, DecodeError>, o: RangeOutcome) -> bool {
    match o {
        RangeOutcome::Parts(low, high) => r matches Ok(p) && p.start@ == low && p.end@ == high,
        RangeOutcome::NoSeparator => r matches Err(DecodeError::RangeSeparator),
        RangeOutcome::BadLow(t) => r matches Err(DecodeError::RangeLow(x)) && x@ == t,
        RangeOutcome::BadHigh(t) => r matches Err(DecodeError::RangeHigh(x)) && x@ == t,
    }
}

/// What a datetime text decodes to: the full form is tried first, then the
/// bare date, which stands for its midnight.
pub open spec fn datetime_value(s: Seq<char>) -> Option<Timestamp> {
    match full_timestamp(s) {
        Some(t) => Some(t),
        None => match calendar_date(s) {
            Some(d) => Some(d.midnight_spec()),
            None => None,
        },
    }
}

/// The characters of a text, one by one.
pub fn chars_of(text: &str) -> (v: Vec<char>)
    ensures
        v@ == text@,
{
    let n = text.unicode_len();
    let mut v: Vec<char> = Vec::new();
    let mut i: usize = 0;
    while i < n
        invariant
            i <= n,
            n == text@.len(),
            v@ == text@.subrange(0, i as int),
        decreases n - i,
    {
        v.push(text.get_char(i));
        i += 1;
        assert(v@ =~= text@.subrange(0, i as int));
    }
    assert(v@ =~= text@);
    v
}

fn digit(c: char) -> (b: bool)
    ensures
        b == is_digit(c),
{
    c == '0' || c == '1' || c == '2' || c == '3' || c == '4' || c == '5' || c == '6' || c == '7'
        || c == '8' || c == '9'
}

fn skip_digits(v: &Vec<char>, start: usize) -> (end: usize)
    requires
        start <= v.len(),
    ensures
        end == digits_end(v@, start as int),
        start <= end <= v.len(),
{
    let mut i: usize = start;
    while i < v.len() && digit(v[i])
        invariant
            start <= i <= v.len(),
            digits_end(v@, start as int) == digits_end(v@, i as int),
        decreases v.len() - i,
    {
        i += 1;
    }
    i
}

fn skip_sign(v: &Vec<char>, start: usize) -> (end: usize)
    requires
        start <= v.len(),
    ensures
        end == sign_end(v@, start as int),
        start <= end <= v.len(),
{
    if start < v.len() && (v[start] == '+' || v[start] == '-') {
        start + 1
    } else {
        start
    }
}

fn letter_at(v: &Vec<char>, i: usize, lower: char, upper: char) -> (b: bool)
    requires
        i < v.len(),
    ensures
        b == letter(v@, i as int, lower, upper),
{
    v[i] == lower || v[i] == upper
}

fn special_from(v: &Vec<char>, i: usize) -> (b: bool)
    requires
        i <= v.len(),
    ensures
        b == is_special_from(v@, i as int),
{
    let rest: usize = v.len() - i;
    if rest == 3 {
        (letter_at(v, i, 'n', 'N') && letter_at(v, i + 1, 'a', 'A') && letter_at(v, i + 2, 'n', 'N'))
            || (letter_at(v, i, 'i', 'I') && letter_at(v, i + 1, 'n', 'N') && letter_at(
            v,
            i + 2,
            'f',
            'F',
        ))
    } else if rest == 8 {
        letter_at(v, i, 'i', 'I') && letter_at(v, i + 1, 'n', 'N') && letter_at(v, i + 2, 'f', 'F')
            && letter_at(v, i + 3, 'i', 'I') && letter_at(v, i + 4, 'n', 'N') && letter_at(
            v,
            i + 5,
            'i',
            'I',
        ) && letter_at(v, i + 6, 't', 'T') && letter_at(v, i + 7, 'y', 'Y')
    } else {
        false
    }
}

fn exponent_from(v: &Vec<char>, i: usize) -> (b: bool)
    requires
        i <= v.len(),
    ensures
        b == is_exponent_from(v@, i as int),
{
    if i < v.len() && (v[i] == 'e' || v[i] == 'E') {
        let j: usize = skip_sign(v, i + 1);
        let k: usize = skip_digits(v, j);
        k > j && k == v.len()
    } else {
        false
    }
}

fn number_from(v: &Vec<char>, i: usize) -> (b: bool)
    requires
        i <= v.len(),
    ensures
        b == is_number_from(v@, i as int),
{
    let whole_end: usize = skip_digits(v, i);
    if whole_end < v.len() && v[whole_end] == '.' {
        let mantissa_end: usize = skip_digits(v, whole_end + 1);
        mantissa_end - i > 1 && (mantissa_end == v.len() || exponent_from(v, mantissa_end))
    } else {
        whole_end > i && (whole_end == v.len() || exponent_from(v, whole_end))
    }
}

/// Whether the characters are a floating-point number.
pub fn float_text(v: &Vec<char>) -> (b: bool)
    ensures
        b == is_float_text(v@),
{
    let start: usize = skip_sign(v, 0);
    special_from(v, start) || number_from(v, start)
}

/// Accepts the text of a number and keeps it; refuses any other text,
/// naming it.
pub fn decode_numeric_string(text: &str) -> (r: Result<Numeric, DecodeError>)
    ensures
        match r {
            Ok(n) => is_float_text(text@) && n@ == text@ && n.wf(),
            Err(e) => !is_float_text(text@) && (e matches DecodeError::Number(t) && t@ == text@),
        },
{
    let v = chars_of(text);
    if float_text(&v) {
        Ok(Numeric { text: String::from_str(text) })
    } else {
        Err(DecodeError::Number(String::from_str(text)))
    }
}

fn find_separator(v: &Vec<char>) -> (r: Option<usize>)
    ensures
        match r {
            Some(i) => first_separator(v@, 0) == Some(i as int) && i + 3 <= v.len(),
            None => first_separator(v@, 0) is None,
        },
{
    if v.len() < 3 {
        return None;
    }
    let last: usize = v.len() - 3;
    let mut i: usize = 0;
    while i <= last
        invariant
            last == v.len() - 3,
            i <= last + 1,
            first_separator(v@, 0) == first_separator(v@, i as int),
        decreases last + 1 - i,
    {
        if v[i] == ' ' && v[i + 1] == '-' && v[i + 2] == ' ' {
            return Some(i);
        }
        i += 1;
    }
    None
}

/// Decodes `"<low> - <high>"`: the text is cut at the first separator, and
/// each side must be a number.
pub fn deserialize_td_range(text: &str) -> (r: Result<NumericRange, DecodeError>)
    ensures
        range_agrees(r, range_outcome(text@)),
{
    let v = chars_of(text);
    match find_separator(&v) {
        None => Err(DecodeError::RangeSeparator),
        Some(i) => {
            let low = text.substring_char(0, i);
            let high = text.substring_char(i + 3, v.len());
            match decode_numeric_string(low) {
                Err(_) => Err(DecodeError::RangeLow(String::from_str(low))),
                Ok(start) => match decode_numeric_string(high) {
                    Err(_) => Err(DecodeError::RangeHigh(String::from_str(high))),
                    Ok(end) => Ok(NumericRange { start, end }),
                },
            }
        },
    }
}

/// Decodes a timestamp sent as `YYYY-MM-DD HH:MM:SS` or as `YYYY-MM-DD`;
/// the second form stands for midnight of that day. Any other text is
/// refused, and the error names it.
pub fn deserialize_td_datetime(text: &str) -> (r: Result<Timestamp, DecodeError>)
    ensures
        match r {
            Ok(t) => datetime_value(text@) == Some(t),
            Err(e) => datetime_value(text@) is None && (e matches DecodeError::Datetime {
                text: t,
                ..
            } && t@ == text@),
        },
{
    match parse_full_timestamp(text) {
        Ok(t) => Ok(t),
        Err(full) => match parse_calendar_date(text) {
            Ok(d) => Ok(d.midnight()),
            Err(date) => Err(DecodeError::Datetime { text: String::from_str(text), full, date }),
        },
    }
}

} // verus!
