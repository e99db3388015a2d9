//! The calendar date of a run and the folder name made of it.

use vstd::prelude::*;
use vstd::string::*;
use crate::clock::local_calendar_date;

verus! {

/// The largest year that a run date can hold: the folder name has four digits for it.
pub const MAX_YEAR: u32 = 9999;

/// `String::push` appends one character to the end of the string.
pub assume_specification[ String::push ](s: &mut String, c: char)
    ensures
        final(s)@ == old(s)@.push(c),
;

/// The character of a decimal digit.
pub open spec fn digit_char(digit: int) -> char {
    ((48 + digit) as u8) as char
}

/// The two digits of `value`, the tens first.
pub open spec fn two_digits(value: int) -> Seq<char> {
    seq![digit_char(value / 10), digit_char(value % 10)]
}

/// The four digits of `value`, the thousands first.
pub open spec fn four_digits(value: int) -> Seq<char> {
    two_digits(value / 100) + two_digits(value % 100)
}

/// The folder name of a date: day, month and year as `dd-mm-yyyy`.
pub open spec fn date_label(day: int, month: int, year: int) -> Seq<char> {
    two_digits(day) + seq!['-'] + two_digits(month) + seq!['-'] + four_digits(year)
}

/// Whether day, month and year can stand in a run date. The day is not held
/// against the length of its month.
pub open spec fn date_in_range(day: int, month: int, year: int) -> bool {
    &&& 1 <= day <= 31
    &&& 1 <= month <= 12
    &&& 0 <= year <= MAX_YEAR
}

/// The folder under `base` that holds the output of the run of a date: the
/// date's folder name after `base` and a slash.
pub open spec fn dated_source_path(base: Seq<char>, day: int, month: int, year: int) -> Seq<char> {
    base.push('/') + date_label(day, month, year)
}

/// `date` is what day, month and year make: the date of these three where they
/// are in range, and nothing where they are not.
pub open spec fn is_date_of(date: Option<RunDate>, day: int, month: int, year: int) -> bool {
    &&& date is Some <==> date_in_range(day, month, year)
    &&& date matches Some(d) ==> d.spec_day() == day && d.spec_month() == month && d.spec_year()
        == year
}

/// The calendar date on which a run takes place.
#[derive(Clone, Copy, Debug)]
pub struct RunDate {
    day: u32,
    month: u32,
    year: u32,
}

impl RunDate {
    #[verifier::type_invariant]
    spec fn in_range(self) -> bool {
        date_in_range(self.day as int, self.month as int, self.year as int)
    }

    pub closed spec fn spec_day(&self) -> int {
        self.day as int
    }

    pub closed spec fn spec_month(&self) -> int {
        self.month as int
    }

    pub closed spec fn spec_year(&self) -> int {
        self.year as int
    }

    /// The folder name of this date.
    pub open spec fn spec_label(&self) -> Seq<char> {
        date_label(self.spec_day(), self.spec_month(), self.spec_year())
    }

    /// The date with this day, month and year, where they are in range.
    pub fn new(day: u32, month: u32, year: i32) -> (date: Option<RunDate>)
        ensures
            is_date_of(date, day as int, month as int, year as int),
    {
        if 1 <= day && day <= 31 && 1 <= month && month <= 12 && 0 <= year && year <= 9999 {
            Some(RunDate { day, month, year: year as u32 })
        } else {
            None
        }
    }

    /// Today's date in the machine's time zone, as `new` makes it of the day,
    /// month and year that the clock gave: `None` where the clock stands in a
    /// year that has no four digits.
    pub fn today() -> (date: Option<RunDate>)
        ensures
            exists|day: int, month: int, year: int|
                1 <= day <= 31 && 1 <= month <= 12 && #[trigger] is_date_of(date, day, month, year),
    {
        let (year, month, day) = local_calendar_date();
        let date = RunDate::new(day, month, year);
        assert(is_date_of(date, day as int, month as int, year as int));
        date
    }

    pub fn day(&self) -> (day: u32)
        ensures
            day == self.spec_day(),
            1 <= day <= 31,
    {
        proof {
            use_type_invariant(self);
        }
        self.day
    }

    pub fn month(&self) -> (month: u32)
        ensures
            month == self.spec_month(),
            1 <= month <= 12,
    {
        proof {
            use_type_invariant(self);
        }
        self.month
    }

    pub fn year(&self) -> (year: u32)
        ensures
            year == self.spec_year(),
            year <= MAX_YEAR,
    {
        proof {
            use_type_invariant(self);
        }
        self.year
    }

    /// The folder name of this date: `dd-mm-yyyy`, each part padded with zeros.
    pub fn label(&self) -> (label: String)
        ensures
            label@ == self.spec_label(),
            label@.len() == 10,
    {
        proof {
            use_type_invariant(self);
        }
        let mut label = String::new();
        push_two_digits(&mut label, self.day);
        label.push('-');
        push_two_digits(&mut label, self.month);
        label.push('-');
        push_two_digits(&mut label, self.year / 100);
        push_two_digits(&mut label, self.year % 100);
        assert(label@ =~= self.spec_label());
        label
    }

    /// The source folder of this date's run under `base`: `base`, a slash and
    /// the date's folder name.
    pub fn source_under(&self, base: &str) -> (source: String)
        ensures
            source@ == dated_source_path(
                base@,
                self.spec_day(),
                self.spec_month(),
                self.spec_year(),
            ),
    {
        let mut source = String::from_str(base);
        source.push('/');
        let label = self.label();
        source.append(label.as_str());
        source
    }
}

/// Appends the two digits of `value` to `text`.
fn push_two_digits(text: &mut String, value: u32)
    requires
        value < 100,
    ensures
        final(text)@ == old(text)@ + two_digits(value as int),
{
    let tens: u8 = (value / 10) as u8;
    let ones: u8 = (value % 10) as u8;
    text.push((48u8 + tens) as char);
    text.push((48u8 + ones) as char);
    assert(text@ =~= old(text)@ + two_digits(value as int));
}

} // verus!
