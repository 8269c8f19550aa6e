//! The error taxonomy of the sync core. Field-level normalization failures
//! are deliberately not here: those resolve silently to zero defaults inside
//! the normalizers.

use vstd::prelude::*;

use crate::numeric::{spec_u64_string, u64_to_string};

verus! {

/// Why one resource's sync run failed. Each variant is fatal for that
/// resource's run; already-persisted batches stay intact.
#[derive(Debug, Clone, PartialEq, Eq)]
pub enum SyncError {
    /// Connect failure, timeout, or a non-2xx response; a status and the
    /// response body are kept when the server answered.
    NetworkError { status: Option<u16>, body: String },
    /// The response body was not valid JSON or did not match the expected
    /// envelope.
    ParseError { detail: String },
    /// The `end_time` used to advance the cursor did not parse as an
    /// integer timestamp.
    MalformedCursor,
    /// A page came back empty (or did not advance the cursor) while the
    /// cursor had not reached the present: the loop must stop, not spin.
    NoProgress,
    /// The store refused a batch write.
    PersistError { detail: String },
}

/// The one-line text of an error.
pub open spec fn spec_describe(e: SyncError) -> Seq<char> {
    match e {
        SyncError::NetworkError { status, body } => match status {
            Some(s) => "network error (status "@ + spec_u64_string(s as int) + "): "@ + body@,
            None => "network error: "@ + body@,
        },
        SyncError::ParseError { detail } => "parse error: "@ + detail@,
        SyncError::MalformedCursor => "the end_time used to advance the cursor did not parse"@,
        SyncError::NoProgress => "the page made no progress while the cursor was behind the present"@,
        SyncError::PersistError { detail } => "persist error: "@ + detail@,
    }
}

impl SyncError {
    /// Renders the error as one line of text.
    pub fn describe(&self) -> (r: String)
        ensures
            r@ == spec_describe(*self),
    {
        let mut r = String::new();
        match self {
            SyncError::NetworkError { status, body } => {
                match status {
                    Some(s) => {
                        r.append("network error (status ");
                        let digits = u64_to_string(*s as u64);
                        r.append(digits.as_str());
                        r.append("): ");
                    },
                    None => {
                        r.append("network error: ");
                    },
                }
                r.append(body.as_str());
            },
            SyncError::ParseError { detail } => {
                r.append("parse error: ");
                r.append(detail.as_str());
            },
            SyncError::MalformedCursor => {
                r.append("the end_time used to advance the cursor did not parse");
            },
            SyncError::NoProgress => {
                r.append("the page made no progress while the cursor was behind the present");
            },
            SyncError::PersistError { detail } => {
                r.append("persist error: ");
                r.append(detail.as_str());
            },
        }
        proof {
            assert(r@ =~= spec_describe(*self));
        }
        r
    }
}

} // verus!
