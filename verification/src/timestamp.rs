//! A wall-clock instant at second resolution, and the names derived from it.

use crate::digits::{
    append_padded, append_signed_padded, lemma_decimal_len_small, padded, signed_padded,
};
use vstd::prelude::*;

verus! {

/// Local calendar date and time of day, to the second.
#[derive(Clone, Copy, Debug, PartialEq, Eq, Structural)]
pub struct Timestamp {
    pub year: i32,
    pub month: u32,
    pub day: u32,
    pub hour: u32,
    pub minute: u32,
    pub second: u32,
}

impl Timestamp {
    /// Every field lies in the range of a calendar reading.
    pub open spec fn wf(&self) -> bool {
        &&& 1 <= self.month <= 12
        &&& 1 <= self.day <= 31
        &&& self.hour <= 23
        &&& self.minute <= 59
        &&& self.second <= 59
    }

    /// The date as `YYYY-MM-DD`.
    pub open spec fn date_text(&self) -> Seq<char> {
        signed_padded(self.year as int, 4) + seq!['-'] + padded(self.month as nat, 2) + seq!['-']
            + padded(self.day as nat, 2)
    }

    /// The time of day as three two-digit numbers with `sep` between them.
    pub open spec fn time_text(&self, sep: char) -> Seq<char> {
        padded(self.hour as nat, 2) + seq![sep] + padded(self.minute as nat, 2) + seq![sep]
            + padded(self.second as nat, 2)
    }

    /// The name of a backup taken at this instant: `YYYY-MM-DD_HH-MM-SS`.
    pub open spec fn label_text(&self) -> Seq<char> {
        self.date_text() + seq!['_'] + self.time_text('-')
    }

    /// Whether the fields are those of a calendar reading.
    pub fn is_valid(&self) -> (valid: bool)
        ensures
            valid == self.wf(),
    {
        1 <= self.month && self.month <= 12 && 1 <= self.day && self.day <= 31 && self.hour <= 23
            && self.minute <= 59 && self.second <= 59
    }

    /// Appends the date as `YYYY-MM-DD`.
    pub fn append_date(&self, out: &mut String)
        ensures
            final(out)@ == old(out)@ + self.date_text(),
    {
        proof {
            reveal_strlit("-");
        }
        assert("-"@ =~= seq!['-']);
        append_signed_padded(out, self.year, 4);
        out.append("-");
        append_padded(out, self.month, 2);
        out.append("-");
        append_padded(out, self.day, 2);
        assert(out@ =~= old(out)@ + self.date_text());
    }

    /// Appends the time of day with `-` between its parts.
    pub fn append_time_dashed(&self, out: &mut String)
        ensures
            final(out)@ == old(out)@ + self.time_text('-'),
    {
        proof {
            reveal_strlit("-");
        }
        assert("-"@ =~= seq!['-']);
        append_padded(out, self.hour, 2);
        out.append("-");
        append_padded(out, self.minute, 2);
        out.append("-");
        append_padded(out, self.second, 2);
        assert(out@ =~= old(out)@ + self.time_text('-'));
    }

    /// Appends the time of day with `:` between its parts.
    pub fn append_time_colons(&self, out: &mut String)
        ensures
            final(out)@ == old(out)@ + self.time_text(':'),
    {
        proof {
            reveal_strlit(":");
        }
        assert(":"@ =~= seq![':']);
        append_padded(out, self.hour, 2);
        out.append(":");
        append_padded(out, self.minute, 2);
        out.append(":");
        append_padded(out, self.second, 2);
        assert(out@ =~= old(out)@ + self.time_text(':'));
    }

    /// The name of a backup taken at this instant.
    pub fn label(&self) -> (name: String)
        ensures
            name@ == self.label_text(),
    {
        let mut name = String::new();
        proof {
            reveal_strlit("_");
        }
        assert("_"@ =~= seq!['_']);
        self.append_date(&mut name);
        name.append("_");
        self.append_time_dashed(&mut name);
        assert(name@ =~= self.label_text());
        name
    }
}

/// Labels have a fixed width.
///
/// The label of a calendar reading in the years 0 to 9999 is nineteen
/// characters long, and so are the labels of all other such readings.
pub proof fn law_label_fixed_width(now: Timestamp)
    requires
        now.wf(),
        0 <= now.year <= 9999,
    ensures
        now.date_text().len() == 10,
        now.time_text('-').len() == 8,
        now.label_text().len() == 19,
{
    lemma_decimal_len_small(now.year as nat);
    lemma_decimal_len_small(now.month as nat);
    lemma_decimal_len_small(now.day as nat);
    lemma_decimal_len_small(now.hour as nat);
    lemma_decimal_len_small(now.minute as nat);
    lemma_decimal_len_small(now.second as nat);
}

} // verus!
