//! Rendering of epoch-second instants for the persistence layer. The store
//! takes timestamps as `YYYY-MM-DD HH:MM:SS UTC` text in batch writes; the
//! calendar arithmetic is chrono's, behind one trusted wrapper.

use vstd::prelude::*;

verus! {

/// The lowest epoch-second value the renderer accepts; far before any
/// timestamp the upstream serves, and safely inside chrono's year range.
pub const TS_RENDER_MIN: i64 = -8000000000000;

/// The highest epoch-second value the renderer accepts; far beyond any
/// timestamp the upstream serves, and safely inside chrono's year range.
pub const TS_RENDER_MAX: i64 = 8000000000000;

/// The epoch seconds that the renderer accepts.
pub open spec fn renderable_ts(secs: i64) -> bool {
    TS_RENDER_MIN <= secs <= TS_RENDER_MAX
}

/// Tests the renderable range at run time.
pub fn ts_is_renderable(secs: i64) -> (b: bool)
    ensures
        b == renderable_ts(secs),
{
    TS_RENDER_MIN <= secs && secs <= TS_RENDER_MAX
}

/// The `%Y-%m-%d %H:%M:%S UTC` text of an instant.
pub uninterp spec fn spec_utc_text(secs: i64) -> Seq<char>;

/// Relies on chrono: `DateTime::<Utc>::from_timestamp` is documented to
/// return `Some` for every timestamp within its supported year range (about
/// ±262,000 years, far beyond the bounds required here), and the
/// `%Y-%m-%d %H:%M:%S UTC` formatter's text depends on the seconds alone.
#[verifier::external_body]
pub(crate) fn utc_text(secs: i64) -> (r: String)
    requires
        renderable_ts(secs),
    ensures
        r@ == spec_utc_text(secs),
{
    let dt = chrono::DateTime::<chrono::Utc>::from_timestamp(secs, 0).unwrap();
    dt.format("%Y-%m-%d %H:%M:%S UTC").to_string()
}

} // verus!
