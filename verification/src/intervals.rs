//! The granularity labels the upstream API accepts for its `interval` query
//! parameter.

use vstd::prelude::*;

verus! {

/// One bucket granularity of the upstream time series.
#[derive(Debug, Clone, Copy, PartialEq, Eq, Structural)]
pub enum INTERVALS {
    Min,
    Hour,
    Day,
    Week,
    Month,
    Quarter,
    Year,
}

/// The wire label of each granularity.
pub open spec fn spec_interval_value(key: INTERVALS) -> Seq<char> {
    match key {
        INTERVALS::Min => seq!['5', 'm', 'i', 'n'],
        INTERVALS::Hour => seq!['h', 'o', 'u', 'r'],
        INTERVALS::Day => seq!['d', 'a', 'y'],
        INTERVALS::Week => seq!['w', 'e', 'e', 'k'],
        INTERVALS::Month => seq!['m', 'o', 'n', 't', 'h'],
        INTERVALS::Quarter => seq!['q', 'u', 'a', 'r', 't', 'e', 'r'],
        INTERVALS::Year => seq!['y', 'e', 'a', 'r'],
    }
}

/// The query-parameter value sent for a granularity.
pub fn get_value(key: INTERVALS) -> (r: &'static str)
    ensures
        r@ == spec_interval_value(key),
{
    proof {
        reveal_strlit("5min");
        reveal_strlit("hour");
        reveal_strlit("day");
        reveal_strlit("week");
        reveal_strlit("month");
        reveal_strlit("quarter");
        reveal_strlit("year");
    }
    let r = match key {
        INTERVALS::Min => "5min",
        INTERVALS::Hour => "hour",
        INTERVALS::Day => "day",
        INTERVALS::Week => "week",
        INTERVALS::Month => "month",
        INTERVALS::Quarter => "quarter",
        INTERVALS::Year => "year",
    };
    proof {
        assert(r@ =~= spec_interval_value(key));
    }
    r
}

} // verus!
