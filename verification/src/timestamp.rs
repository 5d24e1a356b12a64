//! UTC wall-clock instants and the fixed-width stamps derived from them.
//!
//! One instant is read per signing call, so the date stamp, the full
//! timestamp, and the generated object key always agree with each other.

use vstd::prelude::*;

use crate::digits::{four_digits, push_four_digits, push_two_digits, two_digits};

use chrono::Datelike;
use chrono::Timelike;

verus! {

/// A UTC instant, split into calendar and clock fields.
pub struct UtcTime {
    pub year: u32,
    pub month: u32,
    pub day: u32,
    pub hour: u32,
    pub minute: u32,
    pub second: u32,
}

impl UtcTime {
    /// The fields form a renderable calendar instant: the year fits in four
    /// decimal digits and the remaining fields fit their clock ranges.
    pub open spec fn wf(self) -> bool {
        &&& self.year <= 9999
        &&& 1 <= self.month <= 12
        &&& 1 <= self.day <= 31
        &&& self.hour <= 23
        &&& self.minute <= 59
        &&& self.second <= 59
    }

    /// The `YYYYMMDD` date stamp used in the credential scope.
    pub open spec fn spec_date_stamp(self) -> Seq<char> {
        four_digits(self.year as nat) + two_digits(self.month as nat) + two_digits(
            self.day as nat,
        )
    }

    /// The `YYYYMMDDTHHMMSSZ` timestamp carried by `x-amz-date`.
    pub open spec fn spec_amz_date(self) -> Seq<char> {
        self.spec_date_stamp() + "T"@ + two_digits(self.hour as nat) + two_digits(
            self.minute as nat,
        ) + two_digits(self.second as nat) + "Z"@
    }

    /// The `YYYY-MM-DD-HH-MM-SS` stamp that opens a generated object key.
    pub open spec fn spec_key_stamp(self) -> Seq<char> {
        four_digits(self.year as nat) + "-"@ + two_digits(self.month as nat) + "-"@ + two_digits(
            self.day as nat,
        ) + "-"@ + two_digits(self.hour as nat) + "-"@ + two_digits(self.minute as nat) + "-"@
            + two_digits(self.second as nat)
    }

    /// Renders the `YYYYMMDD` date stamp.
    pub fn date_stamp(&self) -> (r: String)
        requires
            self.wf(),
        ensures
            r@ == self.spec_date_stamp(),
    {
        let mut out = String::new();
        push_four_digits(&mut out, self.year);
        push_two_digits(&mut out, self.month);
        push_two_digits(&mut out, self.day);
        assert(out@ =~= self.spec_date_stamp());
        out
    }

    /// Renders the `YYYYMMDDTHHMMSSZ` timestamp.
    pub fn amz_date(&self) -> (r: String)
        requires
            self.wf(),
        ensures
            r@ == self.spec_amz_date(),
    {
        let mut out = self.date_stamp();
        out.append("T");
        push_two_digits(&mut out, self.hour);
        push_two_digits(&mut out, self.minute);
        push_two_digits(&mut out, self.second);
        out.append("Z");
        assert(out@ =~= self.spec_amz_date());
        out
    }

    /// Renders the `YYYY-MM-DD-HH-MM-SS` object-key stamp.
    pub fn key_stamp(&self) -> (r: String)
        requires
            self.wf(),
        ensures
            r@ == self.spec_key_stamp(),
    {
        let mut out = String::new();
        push_four_digits(&mut out, self.year);
        out.append("-");
        push_two_digits(&mut out, self.month);
        out.append("-");
        push_two_digits(&mut out, self.day);
        out.append("-");
        push_two_digits(&mut out, self.hour);
        out.append("-");
        push_two_digits(&mut out, self.minute);
        out.append("-");
        push_two_digits(&mut out, self.second);
        assert(out@ =~= self.spec_key_stamp());
        out
    }

    /// The current UTC instant. Falls back to the first renderable instant
    /// in the (unreachable in practice) case of a clock year outside four
    /// decimal digits.
    pub fn now() -> (r: UtcTime)
        ensures
            r.wf(),
    {
        let (year, month, day, hour, minute, second) = clock_now_fields();
        if 0 <= year && year <= 9999 {
            UtcTime { year: year as u32, month, day, hour, minute, second }
        } else {
            UtcTime { year: 1970, month: 1, day: 1, hour: 0, minute: 0, second: 0 }
        }
    }
}

/// Relies on chrono's `Utc::now` and its `Datelike`/`Timelike` accessors:
/// `month` ranges over 1..=12, `day` over 1..=31, `hour` over 0..=23, and
/// `minute` and `second` over 0..=59 (chrono keeps leap seconds in the
/// nanosecond field). Panics, independently of any input, if the system
/// clock reads before the Unix epoch.
#[verifier::external_body]
fn clock_now_fields() -> (r: (i32, u32, u32, u32, u32, u32))
    ensures
        1 <= r.1 <= 12,
        1 <= r.2 <= 31,
        r.3 <= 23,
        r.4 <= 59,
        r.5 <= 59,
{
    let now = chrono::Utc::now();
    (now.year(), now.month(), now.day(), now.hour(), now.minute(), now.second())
}

} // verus!
