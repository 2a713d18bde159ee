//! Calendar time to the second, and the sortable text that file names carry.

use vstd::prelude::*;
use vstd::string::*;
use crate::text::{pow10, push_zero_padded, zero_padded, zero_padded_len};

verus! {

/// A local calendar date and time of day, to the second.
#[derive(Debug, Clone, Copy, PartialEq, Eq)]
pub struct Timestamp {
    pub year: i32,
    pub month: u32,
    pub day: u32,
    pub hour: u32,
    pub minute: u32,
    pub second: u32,
}

/// The text of a year: four digits from 0 to 9999, and otherwise a sign
/// followed by at least four digits.
pub open spec fn year_text(year: int) -> Seq<char> {
    if 0 <= year <= 9999 {
        zero_padded(year as nat, 4)
    } else if year < 0 {
        seq!['-'] + zero_padded((-year) as nat, 4)
    } else {
        seq!['+'] + zero_padded(year as nat, 4)
    }
}

/// The text `YYYY-MM-DD--HH-MM-SS` of a time.
pub open spec fn stamp_text(t: Timestamp) -> Seq<char> {
    year_text(t.year as int) + seq!['-'] + zero_padded(t.month as nat, 2) + seq!['-']
        + zero_padded(t.day as nat, 2) + seq!['-', '-'] + zero_padded(t.hour as nat, 2)
        + seq!['-'] + zero_padded(t.minute as nat, 2) + seq!['-'] + zero_padded(
        t.second as nat,
        2,
    )
}

/// Appends the text of a year to `s`.
fn push_year(s: &mut String, year: i32)
    ensures
        final(s)@ == old(s)@ + year_text(year as int),
{
    let ghost before = s@;
    let y: i64 = year as i64;
    if 0 <= y && y <= 9999 {
        push_zero_padded(s, y as u64, 4);
    } else if y < 0 {
        s.push('-');
        push_zero_padded(s, (-y) as u64, 4);
        assert(s@ =~= before + (seq!['-'] + zero_padded((-year) as nat, 4)));
    } else {
        s.push('+');
        push_zero_padded(s, y as u64, 4);
        assert(s@ =~= before + (seq!['+'] + zero_padded(year as nat, 4)));
    }
}

impl Timestamp {
    /// Whether every field is in the range that the calendar and the clock
    /// give it.
    pub open spec fn wf(&self) -> bool {
        &&& 1 <= self.month <= 12
        &&& 1 <= self.day <= 31
        &&& self.hour <= 23
        &&& self.minute <= 59
        &&& self.second <= 59
    }

    /// The time with the given fields, where each is in its range.
    pub fn new(year: i32, month: u32, day: u32, hour: u32, minute: u32, second: u32) -> (r: Option<
        Timestamp,
    >)
        ensures
            r == (if 1 <= month <= 12 && 1 <= day <= 31 && hour <= 23 && minute <= 59 && second
                <= 59 {
                Some(Timestamp { year, month, day, hour, minute, second })
            } else {
                None
            }),
    {
        if 1 <= month && month <= 12 && 1 <= day && day <= 31 && hour <= 23 && minute <= 59
            && second <= 59 {
            Some(Timestamp { year, month, day, hour, minute, second })
        } else {
            None
        }
    }

    /// Appends the text of this time to `s`.
    pub fn push_text(&self, s: &mut String)
        ensures
            final(s)@ == old(s)@ + stamp_text(*self),
    {
        let ghost before = s@;
        push_year(s, self.year);
        let ghost p1 = year_text(self.year as int);
        s.push('-');
        push_zero_padded(s, self.month as u64, 2);
        let ghost p2 = p1 + seq!['-'] + zero_padded(self.month as nat, 2);
        assert(s@ =~= before + p2);
        s.push('-');
        push_zero_padded(s, self.day as u64, 2);
        let ghost p3 = p2 + seq!['-'] + zero_padded(self.day as nat, 2);
        assert(s@ =~= before + p3);
        s.push('-');
        s.push('-');
        push_zero_padded(s, self.hour as u64, 2);
        let ghost p4 = p3 + seq!['-', '-'] + zero_padded(self.hour as nat, 2);
        assert(s@ =~= before + p4);
        s.push('-');
        push_zero_padded(s, self.minute as u64, 2);
        let ghost p5 = p4 + seq!['-'] + zero_padded(self.minute as nat, 2);
        assert(s@ =~= before + p5);
        s.push('-');
        push_zero_padded(s, self.second as u64, 2);
        let ghost p6 = p5 + seq!['-'] + zero_padded(self.second as nat, 2);
        assert(s@ =~= before + p6);
        assert(p6 == stamp_text(*self));
    }

    /// The text `YYYY-MM-DD--HH-MM-SS` of this time.
    pub fn text(&self) -> (r: String)
        ensures
            r@ == stamp_text(*self),
    {
        let mut s = String::new();
        self.push_text(&mut s);
        s
    }
}

/// The text of a time in the years 0 to 9999 is twenty characters long,
/// whatever the time: names that carry it line up field by field.
pub proof fn stamp_text_len(t: Timestamp)
    requires
        t.wf(),
        0 <= t.year <= 9999,
    ensures
        stamp_text(t).len() == 20,
{
    assert(pow10(2) == 100 && pow10(4) == 10000) by {
        reveal_with_fuel(pow10, 5);
    }
    zero_padded_len(t.year as nat, 4);
    zero_padded_len(t.month as nat, 2);
    zero_padded_len(t.day as nat, 2);
    zero_padded_len(t.hour as nat, 2);
    zero_padded_len(t.minute as nat, 2);
    zero_padded_len(t.second as nat, 2);
}

/// The local time now, read through `chrono::Local::now` and the getters of
/// chrono's `Datelike` and `Timelike`. Nothing is claimed of which time it
/// is; chrono documents the range of each field but the year.
#[verifier::external_body]
pub(crate) fn local_now() -> (t: Timestamp)
    ensures
        t.wf(),
{
    let now = chrono::Local::now();
    Timestamp {
        year: chrono::Datelike::year(&now),
        month: chrono::Datelike::month(&now),
        day: chrono::Datelike::day(&now),
        hour: chrono::Timelike::hour(&now),
        minute: chrono::Timelike::minute(&now),
        second: chrono::Timelike::second(&now),
    }
}

} // verus!
