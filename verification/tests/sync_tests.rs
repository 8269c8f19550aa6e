use midgard_sync::error::SyncError;
use midgard_sync::intervals::{get_value, INTERVALS};
use midgard_sync::sync::{
    next_cursor, request_url, resource_path, seed_cursor, Resource, SyncAction, SyncPhase,
    SyncRun, FALLBACK_EPOCH,
};
use midgard_sync::wire::RunepoolInterval;

fn interval(start: &str, end: &str) -> RunepoolInterval {
    RunepoolInterval {
        count: String::from("12"),
        start_time: String::from(start),
        end_time: String::from(end),
        units: String::from("777"),
    }
}

#[test]
fn interval_labels() {
    assert_eq!(get_value(INTERVALS::Min), "5min");
    assert_eq!(get_value(INTERVALS::Hour), "hour");
    assert_eq!(get_value(INTERVALS::Day), "day");
    assert_eq!(get_value(INTERVALS::Week), "week");
    assert_eq!(get_value(INTERVALS::Month), "month");
    assert_eq!(get_value(INTERVALS::Quarter), "quarter");
    assert_eq!(get_value(INTERVALS::Year), "year");
}

#[test]
fn fallback_epoch_seeds_cursor_on_not_found() {
    // Last-sync resolver found nothing: the cursor must be the fixed
    // fallback epoch, not zero and not the present.
    let now = 1731000000;
    assert_eq!(seed_cursor(None), FALLBACK_EPOCH);
    assert_eq!(FALLBACK_EPOCH, 1730419200);
    let (mut run, action) = SyncRun::start(Resource::RunePool, None);
    assert_eq!(action, SyncAction::ResolveLastSync);
    let action = run.on_resolved(None, now);
    assert_eq!(action, SyncAction::FetchPage { from: 1730419200 });
    assert_ne!(FALLBACK_EPOCH, 0);
    assert_ne!(FALLBACK_EPOCH, now);
}

#[test]
fn resolved_timestamp_seeds_cursor() {
    let (mut run, _) = SyncRun::start(Resource::Swaps, None);
    let action = run.on_resolved(Some(1730500000), 1731000000);
    assert_eq!(action, SyncAction::FetchPage { from: 1730500000 });
}

#[test]
fn seed_at_or_past_now_stops_without_fetching() {
    let (mut run, _) = SyncRun::start(Resource::Swaps, None);
    let action = run.on_resolved(Some(1731000000), 1731000000);
    assert_eq!(action, SyncAction::Finish);
    assert_eq!(run.phase, SyncPhase::Stopped);
}

#[test]
fn next_cursor_parses_last_end_time() {
    let page = vec![
        interval("1730419200", "1730426400"),
        interval("1730426400", "1730430000"),
    ];
    assert_eq!(next_cursor(&page), Ok(1730430000));
}

#[test]
fn next_cursor_empty_page_is_no_progress() {
    let page: Vec<RunepoolInterval> = Vec::new();
    assert_eq!(next_cursor(&page), Err(SyncError::NoProgress));
}

#[test]
fn next_cursor_malformed_end_time() {
    let page = vec![interval("1730419200", "not-a-number")];
    assert_eq!(next_cursor(&page), Err(SyncError::MalformedCursor));
}

#[test]
fn two_interval_page_advances_cursor_to_last_end_time() {
    // A fetch from 1730419200 returns two intervals ending at 1730426400 and
    // 1730430000: the next fetch must use from=1730430000.
    let now = 1731000000;
    let (mut run, _) = SyncRun::start(Resource::PriceDepth, None);
    let action = run.on_resolved(None, now);
    assert_eq!(action, SyncAction::FetchPage { from: 1730419200 });
    let page = vec![
        interval("1730419200", "1730426400"),
        interval("1730426400", "1730430000"),
    ];
    let action = run.on_page(&page);
    assert_eq!(action, SyncAction::NormalizeBatch);
    let action = run.on_normalized();
    assert_eq!(action, SyncAction::PersistBatch);
    let action = run.on_persisted(2, now);
    assert_eq!(action, SyncAction::FetchPage { from: 1730430000 });
    let url = request_url(Resource::PriceDepth, INTERVALS::Hour, 400, 1730430000);
    assert_eq!(
        url,
        "https://midgard.ninerealms.com/v2/history/depths/BTC.BTC?interval=hour&count=400&from=1730430000"
    );
}

#[test]
fn empty_page_fails_with_no_progress_instead_of_spinning() {
    // Cursor still behind the present, but the page is empty: the run must
    // stop with NoProgress, not refetch the same cursor.
    let now = 1731000000;
    let (mut run, _) = SyncRun::start(Resource::Earnings, None);
    run.on_resolved(None, now);
    let page: Vec<RunepoolInterval> = Vec::new();
    let action = run.on_page(&page);
    assert_eq!(action, SyncAction::Finish);
    assert_eq!(run.phase, SyncPhase::Failed { error: SyncError::NoProgress });
}

#[test]
fn non_advancing_page_fails_with_no_progress() {
    let now = 1731000000;
    let (mut run, _) = SyncRun::start(Resource::Earnings, None);
    run.on_resolved(Some(1730430000), now);
    // The page's last end_time equals the cursor: no progress.
    let page = vec![interval("1730426400", "1730430000")];
    let action = run.on_page(&page);
    assert_eq!(action, SyncAction::Finish);
    assert_eq!(run.phase, SyncPhase::Failed { error: SyncError::NoProgress });
}

#[test]
fn malformed_cursor_fails_the_run() {
    let now = 1731000000;
    let (mut run, _) = SyncRun::start(Resource::RunePool, None);
    run.on_resolved(None, now);
    let page = vec![interval("1730419200", "soon")];
    let action = run.on_page(&page);
    assert_eq!(action, SyncAction::Finish);
    assert_eq!(run.phase, SyncPhase::Failed { error: SyncError::MalformedCursor });
}

#[test]
fn fetch_failure_fails_the_run_with_the_error() {
    let now = 1731000000;
    let (mut run, _) = SyncRun::start(Resource::Swaps, None);
    run.on_resolved(None, now);
    let err = SyncError::NetworkError { status: Some(502), body: String::from("bad gateway") };
    let action = run.on_fetch_failed(err.clone());
    assert_eq!(action, SyncAction::Finish);
    assert_eq!(run.phase, SyncPhase::Failed { error: err });
}

#[test]
fn persist_failure_fails_the_batch() {
    let now = 1731000000;
    let (mut run, _) = SyncRun::start(Resource::Swaps, None);
    run.on_resolved(None, now);
    let page = vec![interval("1730419200", "1730426400")];
    run.on_page(&page);
    run.on_normalized();
    let action = run.on_persist_failed(String::from("connection reset"));
    assert_eq!(action, SyncAction::Finish);
    assert_eq!(
        run.phase,
        SyncPhase::Failed { error: SyncError::PersistError { detail: String::from("connection reset") } }
    );
}

#[test]
fn multi_page_run_uses_strictly_increasing_cursors_and_terminates() {
    // Three pages, each advancing the cursor, the last reaching the present:
    // the fetch cursors strictly increase and the run stops.
    let now = 1730440000;
    let (mut run, action) = SyncRun::start(Resource::RunePool, None);
    assert_eq!(action, SyncAction::ResolveLastSync);
    let mut froms: Vec<i64> = Vec::new();
    let mut action = run.on_resolved(None, now);
    let pages = vec![
        vec![interval("1730419200", "1730426400")],
        vec![interval("1730426400", "1730433600")],
        vec![interval("1730433600", "1730440800")],
    ];
    let mut next_page = 0;
    let mut steps = 0;
    loop {
        steps += 1;
        assert!(steps < 100, "the loop must terminate");
        match action {
            SyncAction::FetchPage { from } => {
                froms.push(from);
                action = run.on_page(&pages[next_page]);
                next_page += 1;
            }
            SyncAction::NormalizeBatch => {
                action = run.on_normalized();
            }
            SyncAction::PersistBatch => {
                action = run.on_persisted(1, now);
            }
            SyncAction::Finish => break,
            SyncAction::ResolveLastSync => unreachable!(),
        }
    }
    assert_eq!(froms, vec![1730419200, 1730426400, 1730433600]);
    for w in froms.windows(2) {
        assert!(w[0] < w[1], "cursors must strictly increase");
    }
    assert_eq!(run.phase, SyncPhase::Stopped);
    assert_eq!(run.total_persisted, 3);
}

#[test]
fn record_cap_stops_the_run() {
    let now = 1731000000;
    let (mut run, _) = SyncRun::start(Resource::RunePool, Some(2));
    run.on_resolved(None, now);
    let page = vec![
        interval("1730419200", "1730422800"),
        interval("1730422800", "1730426400"),
    ];
    run.on_page(&page);
    run.on_normalized();
    // The cursor is still behind `now`, but the cap of two records is
    // reached: the run stops as a success.
    let action = run.on_persisted(2, now);
    assert_eq!(action, SyncAction::Finish);
    assert_eq!(run.phase, SyncPhase::Stopped);
    assert_eq!(run.total_persisted, 2);
}

#[test]
fn request_urls_name_each_resource_endpoint() {
    assert_eq!(resource_path(Resource::PriceDepth), "depths/BTC.BTC");
    assert_eq!(resource_path(Resource::Earnings), "earnings");
    assert_eq!(resource_path(Resource::Swaps), "swaps");
    assert_eq!(resource_path(Resource::RunePool), "runepool");
    assert_eq!(
        request_url(Resource::RunePool, INTERVALS::Min, 400, 1730419200),
        "https://midgard.ninerealms.com/v2/history/runepool?interval=5min&count=400&from=1730419200"
    );
    assert_eq!(
        request_url(Resource::Earnings, INTERVALS::Min, 400, -5),
        "https://midgard.ninerealms.com/v2/history/earnings?interval=5min&count=400&from=-5"
    );
}

#[test]
fn errors_describe_themselves() {
    let e = SyncError::NetworkError { status: Some(502), body: String::from("bad gateway") };
    assert_eq!(e.describe(), "network error (status 502): bad gateway");
    let e = SyncError::NetworkError { status: None, body: String::from("timed out") };
    assert_eq!(e.describe(), "network error: timed out");
    let e = SyncError::ParseError { detail: String::from("missing intervals") };
    assert_eq!(e.describe(), "parse error: missing intervals");
    assert_eq!(
        SyncError::MalformedCursor.describe(),
        "the end_time used to advance the cursor did not parse"
    );
    assert_eq!(
        SyncError::NoProgress.describe(),
        "the page made no progress while the cursor was behind the present"
    );
    let e = SyncError::PersistError { detail: String::from("write refused") };
    assert_eq!(e.describe(), "persist error: write refused");
}
