//! Trip statistics shown in the Markdown overview and issue messages.
use vstd::prelude::*;

use crate::text::{int_decimal, push_char, push_i64_decimal};

verus! {

/// Totals of one trip.
#[derive(Clone, Copy, Debug, PartialEq, Eq, Structural)]
pub struct TripStats {
    pub days: i64,
    pub itinerary_count: usize,
    pub checklist_completed: usize,
    pub checklist_total: usize,
    pub stay_minutes: i64,
    pub travel_minutes: i64,
}

impl TripStats {
    /// Stay time plus travel time.
    pub fn total_minutes(&self) -> (r: i64)
        requires
            i64::MIN <= self.stay_minutes + self.travel_minutes <= i64::MAX,
        ensures
            r == self.stay_minutes + self.travel_minutes,
    {
        self.stay_minutes + self.travel_minutes
    }
}

/// A duration in minutes as hours and minutes: `50m`, `2h`, `2h30m`
/// (below one hour, and for negative values, only minutes).
pub open spec fn minutes_duration_text(minutes: int) -> Seq<char> {
    if minutes < 60 {
        int_decimal(minutes) + seq!['m']
    } else if minutes % 60 == 0 {
        int_decimal(minutes / 60) + seq!['h']
    } else {
        int_decimal(minutes / 60) + seq!['h'] + int_decimal(minutes % 60) + seq!['m']
    }
}

/// Formats a duration given in minutes (e.g. 150 as `2h30m`).
pub fn format_minutes_duration(minutes: i64) -> (r: String)
    ensures
        r@ == minutes_duration_text(minutes as int),
{
    let mut out = String::new();
    if minutes < 60 {
        push_i64_decimal(&mut out, minutes);
        push_char(&mut out, 'm');
    } else if minutes % 60 == 0 {
        push_i64_decimal(&mut out, minutes / 60);
        push_char(&mut out, 'h');
    } else {
        push_i64_decimal(&mut out, minutes / 60);
        push_char(&mut out, 'h');
        push_i64_decimal(&mut out, minutes % 60);
        push_char(&mut out, 'm');
    }
    assert(out@ =~= minutes_duration_text(minutes as int));
    out
}

} // verus!
