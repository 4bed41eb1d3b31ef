use chrono::{Datelike, NaiveDate, NaiveDateTime, Timelike};
use vstd::prelude::*;

verus! {

/// The calendar reading of a date and time without a time zone, field by field.
///
/// Any seven numbers can be written down here; [`DateTimeFields::is_valid`] tells
/// which ones name a moment of the proleptic Gregorian calendar.
#[derive(Clone, Copy, Debug, PartialEq, Eq)]
pub struct DateTimeFields {
    pub year: i32,
    pub month: u32,
    pub day: u32,
    pub hour: u32,
    pub minute: u32,
    pub second: u32,
    /// Nanoseconds past the second. A value of 1_000_000_000 or more marks a leap
    /// second, which can only follow second 59.
    pub nanosecond: u32,
}

/// The first year that a date can lie in.
pub const MIN_YEAR: i32 = -262143;

/// The last year that a date can lie in.
pub const MAX_YEAR: i32 = 262142;

pub open spec fn is_leap_year(year: int) -> bool {
    year % 4 == 0 && (year % 100 != 0 || year % 400 == 0)
}

pub open spec fn days_in_month(year: int, month: int) -> int {
    if month == 2 {
        if is_leap_year(year) {
            29
        } else {
            28
        }
    } else if month == 4 || month == 6 || month == 9 || month == 11 {
        30
    } else {
        31
    }
}

impl DateTimeFields {
    /// Whether the fields name a day that exists, in a year that a date can lie in,
    /// and a time of that day.
    pub open spec fn is_valid(self) -> bool {
        &&& MIN_YEAR <= self.year <= MAX_YEAR
        &&& 1 <= self.month <= 12
        &&& 1 <= self.day <= days_in_month(self.year as int, self.month as int)
        &&& self.hour < 24
        &&& self.minute < 60
        &&& self.second < 60
        &&& self.nanosecond < 2_000_000_000
        &&& (self.nanosecond >= 1_000_000_000 ==> self.second == 59)
    }

    /// Tells whether the fields are valid.
    pub fn check(&self) -> (ok: bool)
        ensures
            ok == self.is_valid(),
    {
        if self.year < MIN_YEAR || self.year > MAX_YEAR {
            return false;
        }
        if self.month < 1 || self.month > 12 || self.day < 1 {
            return false;
        }
        // 262400 is a multiple of 400: the shifted year is positive and leaves the
        // remainders that the leap year rule asks for.
        let shifted: i32 = self.year + 262400;
        let leap = shifted % 4 == 0 && (shifted % 100 != 0 || shifted % 400 == 0);
        let last_day: u32 = if self.month == 2 {
            if leap {
                29
            } else {
                28
            }
        } else if self.month == 4 || self.month == 6 || self.month == 9 || self.month == 11 {
            30
        } else {
            31
        };
        self.day <= last_day && self.hour < 24 && self.minute < 60 && self.second < 60
            && self.nanosecond < 2_000_000_000 && (self.nanosecond < 1_000_000_000
            || self.second == 59)
    }
}

/// The fields that chrono reads out of a text as a date and time, if it takes the
/// text for one.
pub uninterp spec fn fields_of_text(text: Seq<char>) -> Option<DateTimeFields>;

/// The text that chrono prints for the date and time with the given fields.
pub uninterp spec fn text_of_fields(fields: DateTimeFields) -> Seq<char>;

/// Parses the text with chrono's `FromStr` for `NaiveDateTime` and reads the fields
/// off the value with the getters of `Datelike` and `Timelike`.
///
/// Not proved: the contract gives what comes back a name. It rests on chrono reading
/// the same text the same way every time, and says nothing of which texts it takes.
#[verifier::external_body]
fn read_fields(text: &str) -> (r: Option<DateTimeFields>)
    ensures
        r == fields_of_text(text@),
{
    match text.parse::<NaiveDateTime>() {
        Ok(t) => Some(
            DateTimeFields {
                year: t.year(),
                month: t.month(),
                day: t.day(),
                hour: t.hour(),
                minute: t.minute(),
                second: t.second(),
                nanosecond: t.nanosecond(),
            },
        ),
        Err(_) => None,
    }
}

/// Builds the value with chrono's `NaiveDate::from_ymd_opt` and
/// `NaiveDate::and_hms_nano_opt` and prints it with chrono's `Debug` for
/// `NaiveDateTime`.
///
/// Not proved: the contract gives the text a name and states that chrono's parser
/// reads the fields back from it. chrono documents both constructors as accepting
/// every valid reading, and the printed text as one that `str::parse` reads.
#[verifier::external_body]
fn write_fields(fields: &DateTimeFields) -> (r: String)
    requires
        fields.is_valid(),
    ensures
        r@ == text_of_fields(*fields),
        fields_of_text(r@) == Some(*fields),
{
    let date = NaiveDate::from_ymd_opt(fields.year, fields.month, fields.day);
    let time = match date {
        Some(d) => d.and_hms_nano_opt(fields.hour, fields.minute, fields.second, fields.nanosecond),
        None => None,
    };
    match time {
        Some(t) => format!("{:?}", t),
        None => String::new(),
    }
}

/// A date and time without a time zone. Every value is a valid calendar reading.
#[derive(Clone, Copy, Debug, PartialEq, Eq)]
pub struct Timestamp {
    fields: DateTimeFields,
}

impl View for Timestamp {
    type V = DateTimeFields;

    closed spec fn view(&self) -> DateTimeFields {
        self.fields
    }
}

impl DeepView for Timestamp {
    type V = DateTimeFields;

    open spec fn deep_view(&self) -> DateTimeFields {
        self@
    }
}

impl Timestamp {
    #[verifier::type_invariant]
    spec fn valid(self) -> bool {
        self.fields.is_valid()
    }

    /// The date and time that a text stands for: what chrono reads out of it,
    /// as long as that is a valid reading.
    pub open spec fn parsed(text: Seq<char>) -> Option<DateTimeFields> {
        match fields_of_text(text) {
            Some(f) => if f.is_valid() {
                Some(f)
            } else {
                None
            },
            None => None,
        }
    }

    /// The timestamp with the given fields, if they are valid.
    pub fn new(fields: DateTimeFields) -> (r: Option<Timestamp>)
        ensures
            r.deep_view() == if fields.is_valid() {
                Some(fields)
            } else {
                None
            },
    {
        if fields.check() {
            Some(Timestamp { fields })
        } else {
            None
        }
    }

    /// The fields of the timestamp.
    pub fn fields(&self) -> (f: DateTimeFields)
        ensures
            f == self@,
            f.is_valid(),
    {
        proof {
            use_type_invariant(self);
        }
        self.fields
    }

    /// Reads a timestamp from a text of the form `2019-03-09T18:30:05`, with a
    /// fraction of a second behind it where there is one.
    pub fn parse(text: &str) -> (r: Option<Timestamp>)
        ensures
            r.deep_view() == Self::parsed(text@),
    {
        match read_fields(text) {
            Some(f) => Timestamp::new(f),
            None => None,
        }
    }

    /// Prints the timestamp as the text that [`Timestamp::parse`] reads back as it.
    pub fn to_text(&self) -> (r: String)
        ensures
            self@.is_valid(),
            r@ == text_of_fields(self@),
            Self::parsed(r@) == Some(self@),
    {
        proof {
            use_type_invariant(self);
        }
        write_fields(&self.fields)
    }
}

} // verus!
