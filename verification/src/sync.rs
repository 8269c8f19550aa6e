//! The cursor-paginated sync loop, as a verified state machine.
//!
//! One run pages forward from a seeded cursor: each fetched page's last
//! `end_time` becomes the next `from` cursor, until the cursor reaches the
//! present. The machine here makes every decision of the loop; the
//! surrounding runtime only performs the actions it is told (resolve the
//! last-synced timestamp, fetch one page, normalize, persist) and feeds the
//! outcomes back. The loop's stopping bound is the wall clock as freshly
//! sampled by the caller at each decision point, and a run may carry an
//! optional cap on the number of records persisted.

use vstd::prelude::*;

use crate::error::SyncError;
use crate::intervals::{spec_interval_value, get_value, INTERVALS};
use crate::numeric::{
    i64_to_string, parse_i64, spec_i64_string, spec_parse_i64, spec_u64_string, u64_to_string,
};
use crate::wire::WireInterval;

verus! {

/// The four analytics series the service syncs.
#[derive(Debug, Clone, Copy, PartialEq, Eq, Structural)]
pub enum Resource {
    PriceDepth,
    Earnings,
    Swaps,
    RunePool,
}

/// The cursor used when no data has been persisted yet for a resource.
pub const FALLBACK_EPOCH: i64 = 1730419200;

/// The starting cursor of a run: the last persisted timestamp where one
/// exists, else the fixed fallback epoch (never zero, never the present).
pub open spec fn spec_seed_cursor(last: Option<i64>) -> i64 {
    match last {
        Some(t) => t,
        None => FALLBACK_EPOCH,
    }
}

/// Seeds the cursor from the last-sync resolver's answer.
pub fn seed_cursor(last: Option<i64>) -> (r: i64)
    ensures
        r == spec_seed_cursor(last),
{
    match last {
        Some(t) => t,
        None => FALLBACK_EPOCH,
    }
}

/// What the cursor advancer returns for a page: the last record's `end_time`
/// parsed as an integer timestamp; `NoProgress` on an empty page and
/// `MalformedCursor` when the field does not parse.
pub open spec fn spec_next_cursor<T: WireInterval>(page: Seq<T>) -> Result<i64, SyncError> {
    if page.len() == 0 {
        Err(SyncError::NoProgress)
    } else {
        match spec_parse_i64(page.last().end_time_text()) {
            Some(c) => Ok(c),
            None => Err(SyncError::MalformedCursor),
        }
    }
}

/// Cursor advancer: extracts the next cursor from a fetched page.
pub fn next_cursor<T: WireInterval>(page: &Vec<T>) -> (r: Result<i64, SyncError>)
    ensures
        r == spec_next_cursor(page@),
{
    if page.len() == 0 {
        Err(SyncError::NoProgress)
    } else {
        let last = &page[page.len() - 1];
        match parse_i64(last.end_time_str()) {
            Some(c) => Ok(c),
            None => Err(SyncError::MalformedCursor),
        }
    }
}

/// An integer sequence whose entries only grow.
pub open spec fn strictly_increasing(s: Seq<int>) -> bool {
    forall|i: int, j: int| 0 <= i < j < s.len() ==> s[i] < s[j]
}

/// Where one resource's run stands.
#[derive(Debug, Clone, PartialEq, Eq)]
pub enum SyncPhase {
    /// Waiting for the last-sync resolver.
    Resolving,
    /// A page fetch from `cursor` is outstanding.
    Fetching { cursor: i64 },
    /// A page was received and advanced the cursor; its records are being
    /// normalized.
    Normalizing { cursor: i64, next_cursor: i64, count: usize },
    /// The normalized batch is being persisted.
    Persisting { cursor: i64, next_cursor: i64, count: usize },
    /// Terminal success: the cursor reached the present (or the record cap).
    Stopped,
    /// Terminal failure for this resource's run.
    Failed { error: SyncError },
}

/// What the runtime must do next.
#[derive(Debug, Clone, PartialEq, Eq)]
pub enum SyncAction {
    /// Ask the store for the resource's last persisted timestamp.
    ResolveLastSync,
    /// Fetch one page with `from` as the cursor.
    FetchPage { from: i64 },
    /// Normalize the records of the page just received.
    NormalizeBatch,
    /// Persist the batch just normalized.
    PersistBatch,
    /// Nothing: the run is over.
    Finish,
}

/// The state of one resource's sync run.
pub struct SyncRun {
    pub resource: Resource,
    /// Records persisted so far in this run.
    pub total_persisted: u64,
    /// Stop (successfully) once this many records are persisted, if set.
    pub max_records: Option<u64>,
    pub phase: SyncPhase,
    /// Every cursor from which a fetch was issued, in order.
    pub fetched: Ghost<Seq<int>>,
}

impl SyncRun {
    /// The run's invariant: cursors only grow, and the phase agrees with the
    /// fetch history.
    pub open spec fn wf(&self) -> bool {
        &&& strictly_increasing(self.fetched@)
        &&& match self.phase {
            SyncPhase::Resolving => self.fetched@.len() == 0,
            SyncPhase::Fetching { cursor } => self.fetched@.len() > 0 && self.fetched@.last()
                == cursor as int,
            SyncPhase::Normalizing { cursor, next_cursor, .. } => self.fetched@.len() > 0
                && self.fetched@.last() == cursor as int && next_cursor > cursor,
            SyncPhase::Persisting { cursor, next_cursor, .. } => self.fetched@.len() > 0
                && self.fetched@.last() == cursor as int && next_cursor > cursor,
            SyncPhase::Stopped => true,
            SyncPhase::Failed { .. } => true,
        }
    }

    /// Begins a run: the first action is to resolve the last-synced
    /// timestamp.
    pub fn start(resource: Resource, max_records: Option<u64>) -> (r: (SyncRun, SyncAction))
        ensures
            r.0.wf(),
            r.0.resource == resource,
            r.0.total_persisted == 0,
            r.0.max_records == max_records,
            r.0.phase == SyncPhase::Resolving,
            r.0.fetched@ == Seq::<int>::empty(),
            r.1 == SyncAction::ResolveLastSync,
    {
        let run = SyncRun {
            resource,
            total_persisted: 0,
            max_records,
            phase: SyncPhase::Resolving,
            fetched: Ghost(Seq::empty()),
        };
        (run, SyncAction::ResolveLastSync)
    }

    /// Feeds in the last-sync resolver's answer; `now` is the wall clock as
    /// sampled by the caller. Seeds the cursor (fallback epoch on
    /// `None`/not-found) and fetches the first page, unless the seed has
    /// already reached the present.
    pub fn on_resolved(&mut self, last: Option<i64>, now: i64) -> (action: SyncAction)
        requires
            old(self).wf(),
            old(self).phase == SyncPhase::Resolving,
        ensures
            final(self).wf(),
            final(self).resource == old(self).resource,
            final(self).total_persisted == old(self).total_persisted,
            final(self).max_records == old(self).max_records,
            spec_seed_cursor(last) < now ==> {
                &&& final(self).phase == (SyncPhase::Fetching { cursor: spec_seed_cursor(last) })
                &&& action == (SyncAction::FetchPage { from: spec_seed_cursor(last) })
                &&& final(self).fetched@ == old(self).fetched@.push(spec_seed_cursor(last) as int)
            },
            spec_seed_cursor(last) >= now ==> {
                &&& final(self).phase == SyncPhase::Stopped
                &&& action == SyncAction::Finish
                &&& final(self).fetched@ == old(self).fetched@
            },
    {
        let seed = seed_cursor(last);
        if seed < now {
            self.phase = SyncPhase::Fetching { cursor: seed };
            proof {
                assert(strictly_increasing(self.fetched@.push(seed as int)));
            }
            self.fetched = Ghost(self.fetched@.push(seed as int));
            SyncAction::FetchPage { from: seed }
        } else {
            self.phase = SyncPhase::Stopped;
            SyncAction::Finish
        }
    }

    /// Feeds in a fetched page. An empty page, or one whose cursor does not
    /// advance, fails the run with `NoProgress` rather than looping; a last
    /// `end_time` that does not parse fails it with `MalformedCursor`; an
    /// advancing page moves on to normalization.
    pub fn on_page<T: WireInterval>(&mut self, page: &Vec<T>) -> (action: SyncAction)
        requires
            old(self).wf(),
            old(self).phase is Fetching,
        ensures
            final(self).wf(),
            final(self).resource == old(self).resource,
            final(self).total_persisted == old(self).total_persisted,
            final(self).max_records == old(self).max_records,
            final(self).fetched@ == old(self).fetched@,
            ({
                let cursor = old(self).phase->Fetching_cursor;
                match spec_next_cursor(page@) {
                    Ok(nc) => {
                        if nc > cursor {
                            &&& final(self).phase == (SyncPhase::Normalizing {
                                cursor,
                                next_cursor: nc,
                                count: page@.len() as usize,
                            })
                            &&& action == SyncAction::NormalizeBatch
                        } else {
                            &&& final(self).phase == (SyncPhase::Failed {
                                error: SyncError::NoProgress,
                            })
                            &&& action == SyncAction::Finish
                        }
                    },
                    Err(e) => {
                        &&& final(self).phase == (SyncPhase::Failed { error: e })
                        &&& action == SyncAction::Finish
                    },
                }
            }),
    {
        let cursor = match &self.phase {
            SyncPhase::Fetching { cursor } => *cursor,
            _ => {
                proof {
                    assert(false);
                }
                0
            },
        };
        match next_cursor(page) {
            Ok(nc) => {
                if nc > cursor {
                    self.phase = SyncPhase::Normalizing {
                        cursor,
                        next_cursor: nc,
                        count: page.len(),
                    };
                    SyncAction::NormalizeBatch
                } else {
                    self.phase = SyncPhase::Failed { error: SyncError::NoProgress };
                    SyncAction::Finish
                }
            },
            Err(e) => {
                self.phase = SyncPhase::Failed { error: e };
                SyncAction::Finish
            },
        }
    }

    /// Feeds in a failed page fetch (network or parse error): fatal for this
    /// resource's run, with whatever was persisted so far intact.
    pub fn on_fetch_failed(&mut self, error: SyncError) -> (action: SyncAction)
        requires
            old(self).wf(),
            old(self).phase is Fetching,
        ensures
            final(self).wf(),
            final(self).resource == old(self).resource,
            final(self).total_persisted == old(self).total_persisted,
            final(self).max_records == old(self).max_records,
            final(self).fetched@ == old(self).fetched@,
            final(self).phase == (SyncPhase::Failed { error }),
            action == SyncAction::Finish,
    {
        self.phase = SyncPhase::Failed { error };
        SyncAction::Finish
    }

    /// Marks the received page normalized. Normalization is lossy-tolerant
    /// and never fails the transition.
    pub fn on_normalized(&mut self) -> (action: SyncAction)
        requires
            old(self).wf(),
            old(self).phase is Normalizing,
        ensures
            final(self).wf(),
            final(self).resource == old(self).resource,
            final(self).total_persisted == old(self).total_persisted,
            final(self).max_records == old(self).max_records,
            final(self).fetched@ == old(self).fetched@,
            final(self).phase == (SyncPhase::Persisting {
                cursor: old(self).phase->Normalizing_cursor,
                next_cursor: old(self).phase->Normalizing_next_cursor,
                count: old(self).phase->Normalizing_count,
            }),
            action == SyncAction::PersistBatch,
    {
        let (cursor, next, count) = match &self.phase {
            SyncPhase::Normalizing { cursor, next_cursor, count } => (*cursor, *next_cursor, *count),
            _ => {
                proof {
                    assert(false);
                }
                (0, 0, 0)
            },
        };
        self.phase = SyncPhase::Persisting { cursor, next_cursor: next, count };
        SyncAction::PersistBatch
    }

    /// Whether persisting `saved` more records reaches the optional cap.
    pub open spec fn spec_cap_reached(&self, total: u64) -> bool {
        match self.max_records {
            Some(cap) => total >= cap,
            None => false,
        }
    }

    /// Feeds in a successful batch persist; `now` is the wall clock freshly
    /// sampled by the caller. The cursor advances; the run fetches again
    /// while the new cursor is still behind the present and the optional
    /// record cap is not reached, else it stops as a success.
    pub fn on_persisted(&mut self, saved: usize, now: i64) -> (action: SyncAction)
        requires
            old(self).wf(),
            old(self).phase is Persisting,
            old(self).total_persisted + saved <= u64::MAX,
        ensures
            final(self).wf(),
            final(self).resource == old(self).resource,
            final(self).max_records == old(self).max_records,
            final(self).total_persisted == old(self).total_persisted + saved,
            ({
                let nc = old(self).phase->Persisting_next_cursor;
                if nc < now && !old(self).spec_cap_reached((old(self).total_persisted + saved) as u64) {
                    &&& final(self).phase == (SyncPhase::Fetching { cursor: nc })
                    &&& action == (SyncAction::FetchPage { from: nc })
                    &&& final(self).fetched@ == old(self).fetched@.push(nc as int)
                } else {
                    &&& final(self).phase == SyncPhase::Stopped
                    &&& action == SyncAction::Finish
                    &&& final(self).fetched@ == old(self).fetched@
                }
            }),
    {
        let next = match &self.phase {
            SyncPhase::Persisting { next_cursor, .. } => *next_cursor,
            _ => {
                proof {
                    assert(false);
                }
                0
            },
        };
        self.total_persisted = self.total_persisted + (saved as u64);
        let cap_reached = match self.max_records {
            Some(cap) => self.total_persisted >= cap,
            None => false,
        };
        if next < now && !cap_reached {
            proof {
                assert(strictly_increasing(self.fetched@.push(next as int)));
            }
            self.fetched = Ghost(self.fetched@.push(next as int));
            self.phase = SyncPhase::Fetching { cursor: next };
            SyncAction::FetchPage { from: next }
        } else {
            self.phase = SyncPhase::Stopped;
            SyncAction::Finish
        }
    }

    /// Feeds in a failed batch persist: fatal for the current batch;
    /// already-committed batches remain persisted.
    pub fn on_persist_failed(&mut self, detail: String) -> (action: SyncAction)
        requires
            old(self).wf(),
            old(self).phase is Persisting,
        ensures
            final(self).wf(),
            final(self).resource == old(self).resource,
            final(self).total_persisted == old(self).total_persisted,
            final(self).max_records == old(self).max_records,
            final(self).fetched@ == old(self).fetched@,
            final(self).phase == (SyncPhase::Failed {
                error: SyncError::PersistError { detail },
            }),
            action == SyncAction::Finish,
    {
        self.phase = SyncPhase::Failed { error: SyncError::PersistError { detail } };
        SyncAction::Finish
    }
}

/// Law: within one run, the sequence of cursors fetched from is strictly
/// increasing.
pub proof fn lemma_cursor_monotonic(run: &SyncRun)
    requires
        run.wf(),
    ensures
        forall|i: int, j: int|
            0 <= i < j < run.fetched@.len() ==> run.fetched@[i] < run.fetched@[j],
{
}

/// Law: a run never fetches a page from a cursor already known.
pub proof fn lemma_no_refetch(run: &SyncRun)
    requires
        run.wf(),
    ensures
        forall|i: int, j: int|
            0 <= i < run.fetched@.len() && 0 <= j < run.fetched@.len() && i != j
                ==> run.fetched@[i] != run.fetched@[j],
{
    assert forall|i: int, j: int|
        0 <= i < run.fetched@.len() && 0 <= j < run.fetched@.len() && i != j
            implies run.fetched@[i] != run.fetched@[j] by {
        if i < j {
            assert(run.fetched@[i] < run.fetched@[j]);
        } else {
            assert(run.fetched@[j] < run.fetched@[i]);
        }
    }
}

/// In a strictly increasing integer sequence, the entry at `i` is at least
/// the first entry plus `i`.
proof fn lemma_increasing_gap(s: Seq<int>, i: int)
    requires
        strictly_increasing(s),
        0 <= i < s.len(),
    ensures
        s[i] >= s[0] + i,
    decreases i,
{
    if i > 0 {
        lemma_increasing_gap(s, i - 1);
        assert(s[i - 1] < s[i]);
    }
}

/// Law: the loop terminates in finitely many iterations. Every cursor is
/// strictly beyond the previous one and every fetch is issued from a cursor
/// below the stopping bound, so a run whose fetches all stayed below `bound`
/// made at most `bound - seed` of them.
pub proof fn lemma_bounded_fetches(run: &SyncRun, bound: int)
    requires
        run.wf(),
        run.fetched@.len() > 0,
        forall|i: int| 0 <= i < run.fetched@.len() ==> run.fetched@[i] < bound,
    ensures
        run.fetched@.len() <= bound - run.fetched@[0],
{
    let s = run.fetched@;
    lemma_increasing_gap(s, s.len() - 1);
    assert(s[s.len() - 1] < bound);
}

/// The upstream path segment of each resource's history endpoint.
pub open spec fn spec_resource_path(r: Resource) -> Seq<char> {
    match r {
        Resource::PriceDepth => "depths/BTC.BTC"@,
        Resource::Earnings => "earnings"@,
        Resource::Swaps => "swaps"@,
        Resource::RunePool => "runepool"@,
    }
}

/// The path segment of a resource's history endpoint.
pub fn resource_path(r: Resource) -> (p: &'static str)
    ensures
        p@ == spec_resource_path(r),
{
    match r {
        Resource::PriceDepth => "depths/BTC.BTC",
        Resource::Earnings => "earnings",
        Resource::Swaps => "swaps",
        Resource::RunePool => "runepool",
    }
}

/// The full page-fetch URL: the fixed upstream endpoint for the resource,
/// with `interval`, `count` and `from` query parameters.
pub open spec fn spec_request_url(
    r: Resource,
    interval: INTERVALS,
    count: u64,
    from: i64,
) -> Seq<char> {
    "https://midgard.ninerealms.com/v2/history/"@ + spec_resource_path(r) + "?interval="@
        + spec_interval_value(interval) + "&count="@ + spec_u64_string(count as int) + "&from="@
        + spec_i64_string(from as int)
}

/// Builds the page-fetch URL for one resource and cursor.
pub fn request_url(r: Resource, interval: INTERVALS, count: u64, from: i64) -> (url: String)
    ensures
        url@ == spec_request_url(r, interval, count, from),
{
    let mut url = String::new();
    url.append("https://midgard.ninerealms.com/v2/history/");
    url.append(resource_path(r));
    url.append("?interval=");
    url.append(get_value(interval));
    url.append("&count=");
    let count_text = u64_to_string(count);
    url.append(count_text.as_str());
    url.append("&from=");
    let from_text = i64_to_string(from);
    url.append(from_text.as_str());
    proof {
        assert(url@ =~= spec_request_url(r, interval, count, from));
    }
    url
}

} // verus!
