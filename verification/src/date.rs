//! Calendar dates and their canonical text, `YYYY-MM-DD` with leading zeros.

use vstd::prelude::*;
use vstd::string::*;
use vstd::arithmetic::div_mod::lemma_fundamental_div_mod_converse;

verus! {

/// A day of the proleptic Gregorian calendar in the years 0 to 9999.
#[derive(Debug, Clone, Copy, PartialEq, Eq, Structural)]
pub struct Date {
    pub year: u16,
    pub month: u8,
    pub day: u8,
}

pub open spec fn is_leap_year(year: int) -> bool {
    year % 4 == 0 && (year % 100 != 0 || year % 400 == 0)
}

pub open spec fn days_in_month(year: int, month: int) -> int {
    if month == 2 {
        if is_leap_year(year) { 29 } else { 28 }
    } else if month == 4 || month == 6 || month == 9 || month == 11 {
        30
    } else {
        31
    }
}

/// Whether year, month and day name a day that exists.
pub open spec fn is_calendar_day(year: int, month: int, day: int) -> bool {
    0 <= year <= 9999 && 1 <= month <= 12 && 1 <= day <= days_in_month(year, month)
}

/// The character of a decimal digit.
pub open spec fn digit_char(d: int) -> char {
    if d == 0 { '0' }
    else if d == 1 { '1' }
    else if d == 2 { '2' }
    else if d == 3 { '3' }
    else if d == 4 { '4' }
    else if d == 5 { '5' }
    else if d == 6 { '6' }
    else if d == 7 { '7' }
    else if d == 8 { '8' }
    else { '9' }
}

/// The digit that a character stands for, or -1 where it is no digit.
pub open spec fn digit_of(c: char) -> int {
    if c == '0' { 0 }
    else if c == '1' { 1 }
    else if c == '2' { 2 }
    else if c == '3' { 3 }
    else if c == '4' { 4 }
    else if c == '5' { 5 }
    else if c == '6' { 6 }
    else if c == '7' { 7 }
    else if c == '8' { 8 }
    else if c == '9' { 9 }
    else { -1 }
}

/// The canonical text of a date: four digits, a hyphen, two digits, a hyphen,
/// two digits.
pub open spec fn iso_text(year: int, month: int, day: int) -> Seq<char> {
    seq![
        digit_char(year / 1000),
        digit_char(year / 100 % 10),
        digit_char(year / 10 % 10),
        digit_char(year % 10),
        '-',
        digit_char(month / 10),
        digit_char(month % 10),
        '-',
        digit_char(day / 10),
        digit_char(day % 10),
    ]
}

/// Whether a text has the outline of a canonical date: ten characters, the
/// hyphens in their places and digits elsewhere.
pub open spec fn has_date_outline(text: Seq<char>) -> bool {
    &&& text.len() == 10
    &&& text[4] == '-'
    &&& text[7] == '-'
    &&& forall|i: int| 0 <= i < 10 && i != 4 && i != 7 ==> digit_of(#[trigger] text[i]) >= 0
}

pub open spec fn year_in(text: Seq<char>) -> int {
    digit_of(text[0]) * 1000 + digit_of(text[1]) * 100 + digit_of(text[2]) * 10 + digit_of(text[3])
}

pub open spec fn month_in(text: Seq<char>) -> int {
    digit_of(text[5]) * 10 + digit_of(text[6])
}

pub open spec fn day_in(text: Seq<char>) -> int {
    digit_of(text[8]) * 10 + digit_of(text[9])
}

/// The date that a text names, if it is the canonical text of a day that
/// exists.
pub open spec fn date_in(text: Seq<char>) -> Option<Date> {
    if has_date_outline(text) && is_calendar_day(year_in(text), month_in(text), day_in(text)) {
        Some(
            Date {
                year: year_in(text) as u16,
                month: month_in(text) as u8,
                day: day_in(text) as u8,
            },
        )
    } else {
        None
    }
}

fn leap_year(year: u16) -> (r: bool)
    ensures
        r == is_leap_year(year as int),
{
    year % 4 == 0 && (year % 100 != 0 || year % 400 == 0)
}

fn month_length(year: u16, month: u8) -> (r: u8)
    ensures
        r == days_in_month(year as int, month as int),
{
    if month == 2 {
        if leap_year(year) { 29 } else { 28 }
    } else if month == 4 || month == 6 || month == 9 || month == 11 {
        30
    } else {
        31
    }
}

pub(crate) fn digit_text(d: u16) -> (r: &'static str)
    requires
        d <= 9,
    ensures
        r@ == seq![digit_char(d as int)],
{
    proof {
        reveal_strlit("0");
        reveal_strlit("1");
        reveal_strlit("2");
        reveal_strlit("3");
        reveal_strlit("4");
        reveal_strlit("5");
        reveal_strlit("6");
        reveal_strlit("7");
        reveal_strlit("8");
        reveal_strlit("9");
    }
    let r = if d == 0 { "0" }
    else if d == 1 { "1" }
    else if d == 2 { "2" }
    else if d == 3 { "3" }
    else if d == 4 { "4" }
    else if d == 5 { "5" }
    else if d == 6 { "6" }
    else if d == 7 { "7" }
    else if d == 8 { "8" }
    else { "9" };
    assert(r@ =~= seq![digit_char(d as int)]);
    r
}

pub(crate) fn digit_value(c: char) -> (r: Option<u16>)
    ensures
        match r {
            Some(d) => d <= 9 && d == digit_of(c),
            None => digit_of(c) == -1,
        },
{
    if c == '0' { Some(0) }
    else if c == '1' { Some(1) }
    else if c == '2' { Some(2) }
    else if c == '3' { Some(3) }
    else if c == '4' { Some(4) }
    else if c == '5' { Some(5) }
    else if c == '6' { Some(6) }
    else if c == '7' { Some(7) }
    else if c == '8' { Some(8) }
    else if c == '9' { Some(9) }
    else { None }
}

impl Date {
    /// Whether this value names a day that exists.
    pub open spec fn wf(self) -> bool {
        is_calendar_day(self.year as int, self.month as int, self.day as int)
    }

    /// The canonical text of this date.
    pub open spec fn text(self) -> Seq<char> {
        iso_text(self.year as int, self.month as int, self.day as int)
    }

    /// The date of a year, a month and a day, where that day exists.
    pub fn from_ymd(year: u16, month: u8, day: u8) -> (r: Option<Date>)
        ensures
            r.is_some() == is_calendar_day(year as int, month as int, day as int),
            r.is_some() ==> r.unwrap() == (Date { year, month, day }),
    {
        if year <= 9999 && 1 <= month && month <= 12 && 1 <= day && day <= month_length(year, month) {
            Some(Date { year, month, day })
        } else {
            None
        }
    }

    /// Writes the date as `YYYY-MM-DD`, each part filled with leading zeros.
    pub fn format(&self) -> (r: String)
        requires
            self.wf(),
        ensures
            r@ == self.text(),
    {
        let y: u16 = self.year;
        let m: u16 = self.month as u16;
        let d: u16 = self.day as u16;
        let mut r = String::new();
        r.append(digit_text(y / 1000));
        r.append(digit_text(y / 100 % 10));
        r.append(digit_text(y / 10 % 10));
        r.append(digit_text(y % 10));
        proof {
            reveal_strlit("-");
        }
        r.append("-");
        r.append(digit_text(m / 10));
        r.append(digit_text(m % 10));
        r.append("-");
        r.append(digit_text(d / 10));
        r.append(digit_text(d % 10));
        assert(r@ =~= self.text());
        r
    }

    /// Reads a date back from its canonical text. Anything else is refused:
    /// another length, a part without its leading zero, a day that does not
    /// exist.
    pub fn parse(text: &str) -> (r: Option<Date>)
        ensures
            r == date_in(text@),
    {
        if text.unicode_len() != 10 {
            return None;
        }
        if text.get_char(4) != '-' || text.get_char(7) != '-' {
            return None;
        }
        let mut digits: Vec<u16> = Vec::new();
        let mut i: usize = 0;
        while i < 10
            invariant
                text@.len() == 10,
                i <= 10,
                digits@.len() == i,
                forall|j: int| 0 <= j < i && j != 4 && j != 7 ==> digit_of(#[trigger] text@[j]) >= 0,
                forall|j: int|
                    0 <= j < i && j != 4 && j != 7 ==> (#[trigger] digits@[j]) as int == digit_of(
                        text@[j],
                    ),
                forall|j: int| 0 <= j < i ==> (#[trigger] digits@[j]) <= 9,
            decreases 10 - i,
        {
            if i == 4 || i == 7 {
                digits.push(0);
            } else {
                match digit_value(text.get_char(i)) {
                    Some(d) => {
                        digits.push(d);
                    },
                    None => {
                        return None;
                    },
                }
            }
            i = i + 1;
        }
        let year: u16 = digits[0] * 1000 + digits[1] * 100 + digits[2] * 10 + digits[3];
        let month: u16 = digits[5] * 10 + digits[6];
        let day: u16 = digits[8] * 10 + digits[9];
        assert(year == year_in(text@));
        assert(month == month_in(text@));
        assert(day == day_in(text@));
        if 1 <= month && month <= 12 && 1 <= day && day <= month_length(year, month as u8) as u16 {
            Some(Date { year, month: month as u8, day: day as u8 })
        } else {
            None
        }
    }
}

proof fn lemma_digit_of_char(d: int)
    requires
        0 <= d <= 9,
    ensures
        digit_of(digit_char(d)) == d,
{
}

proof fn lemma_char_of_digit(c: char)
    requires
        digit_of(c) >= 0,
    ensures
        0 <= digit_of(c) <= 9,
        digit_char(digit_of(c)) == c,
{
}

proof fn lemma_four_digits(n: int)
    requires
        0 <= n <= 9999,
    ensures
        0 <= n / 1000 <= 9,
        0 <= n / 100 % 10 <= 9,
        0 <= n / 10 % 10 <= 9,
        0 <= n % 10 <= 9,
        (n / 1000) * 1000 + (n / 100 % 10) * 100 + (n / 10 % 10) * 10 + n % 10 == n,
{
    let m: u32 = n as u32;
    assert(m / 1000 <= 9 && (m / 1000) * 1000 + (m / 100 % 10) * 100 + (m / 10 % 10) * 10 + m % 10
        == m) by (bit_vector)
        requires
            m <= 9999,
    ;
}

proof fn lemma_digits_of_sum(a: int, b: int, c: int, d: int)
    requires
        0 <= a <= 9,
        0 <= b <= 9,
        0 <= c <= 9,
        0 <= d <= 9,
    ensures
        ({
            let n = a * 1000 + b * 100 + c * 10 + d;
            &&& n / 1000 == a
            &&& n / 100 % 10 == b
            &&& n / 10 % 10 == c
            &&& n % 10 == d
        }),
{
    let n = a * 1000 + b * 100 + c * 10 + d;
    lemma_fundamental_div_mod_converse(n, 1000, a, b * 100 + c * 10 + d);
    lemma_fundamental_div_mod_converse(n, 100, a * 10 + b, c * 10 + d);
    lemma_fundamental_div_mod_converse(a * 10 + b, 10, a, b);
    lemma_fundamental_div_mod_converse(n, 10, a * 100 + b * 10 + c, d);
    lemma_fundamental_div_mod_converse(a * 100 + b * 10 + c, 10, a * 10 + b, c);
}

/// Writing a date and reading the text back gives the date again.
pub proof fn lemma_format_then_parse(d: Date)
    requires
        d.wf(),
    ensures
        date_in(d.text()) == Some(d),
{
    let t = d.text();
    let y = d.year as int;
    let m = d.month as int;
    let n = d.day as int;
    lemma_four_digits(y);
    lemma_four_digits(m);
    lemma_four_digits(n);
    lemma_digit_of_char(y / 1000);
    lemma_digit_of_char(y / 100 % 10);
    lemma_digit_of_char(y / 10 % 10);
    lemma_digit_of_char(y % 10);
    lemma_digit_of_char(m / 10);
    lemma_digit_of_char(m % 10);
    lemma_digit_of_char(n / 10);
    lemma_digit_of_char(n % 10);
    assert(t.len() == 10);
    assert(t[0] == digit_char(y / 1000) && t[1] == digit_char(y / 100 % 10));
    assert(t[2] == digit_char(y / 10 % 10) && t[3] == digit_char(y % 10));
    assert(t[5] == digit_char(m / 10) && t[6] == digit_char(m % 10));
    assert(t[8] == digit_char(n / 10) && t[9] == digit_char(n % 10));
    assert(t[4] == '-' && t[7] == '-');
    assert(year_in(t) == y);
    assert(month_in(t) == m);
    assert(day_in(t) == n);
    assert forall|i: int| 0 <= i < 10 && i != 4 && i != 7 implies digit_of(#[trigger] t[i]) >= 0 by {
        if i == 0 {
        } else if i == 1 {
        } else if i == 2 {
        } else if i == 3 {
        } else if i == 5 {
        } else if i == 6 {
        } else if i == 8 {
        } else {
            assert(i == 9);
        }
    }
    assert(has_date_outline(t));
}

/// A text that reads as a date is the canonical text of that date, so no two
/// texts name the same day.
pub proof fn lemma_parse_then_format(text: Seq<char>)
    requires
        date_in(text).is_some(),
    ensures
        date_in(text).unwrap().wf(),
        date_in(text).unwrap().text() == text,
{
    let d = date_in(text).unwrap();
    assert(has_date_outline(text));
    lemma_char_of_digit(text[0]);
    lemma_char_of_digit(text[1]);
    lemma_char_of_digit(text[2]);
    lemma_char_of_digit(text[3]);
    lemma_char_of_digit(text[5]);
    lemma_char_of_digit(text[6]);
    lemma_char_of_digit(text[8]);
    lemma_char_of_digit(text[9]);
    lemma_digits_of_sum(digit_of(text[0]), digit_of(text[1]), digit_of(text[2]), digit_of(text[3]));
    lemma_digits_of_sum(0, 0, digit_of(text[5]), digit_of(text[6]));
    lemma_digits_of_sum(0, 0, digit_of(text[8]), digit_of(text[9]));
    let t = d.text();
    assert(t.len() == 10);
    assert(t[0] == text[0] && t[1] == text[1] && t[2] == text[2] && t[3] == text[3]);
    assert(t[5] == text[5] && t[6] == text[6]);
    assert(t[8] == text[8] && t[9] == text[9]);
    assert(t[4] == text[4] && t[7] == text[7]);
    assert(t =~= text);
}

} // verus!
