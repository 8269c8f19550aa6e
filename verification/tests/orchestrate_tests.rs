use midgard_sync::error::SyncError;
use midgard_sync::orchestrate::{resource_order, ResourceOutcome, RunReport};
use midgard_sync::sync::Resource;

#[test]
fn resources_run_in_the_fixed_order() {
    let order = resource_order();
    assert_eq!(
        order,
        vec![Resource::PriceDepth, Resource::Earnings, Resource::Swaps, Resource::RunePool]
    );
}

#[test]
fn one_failed_resource_does_not_mask_the_others() {
    // A forced network failure on the first resource: the three others still
    // run and are reported as successes, each with its own count.
    let mut report = RunReport::new();
    report.record_outcome(
        Resource::PriceDepth,
        ResourceOutcome::Failure {
            error: SyncError::NetworkError { status: Some(503), body: String::from("down") },
        },
    );
    report.record_outcome(Resource::Earnings, ResourceOutcome::Success { records: 7 });
    report.record_outcome(Resource::Swaps, ResourceOutcome::Success { records: 9 });
    report.record_outcome(Resource::RunePool, ResourceOutcome::Success { records: 4 });

    assert_eq!(
        report.outcome(Resource::PriceDepth),
        &Some(ResourceOutcome::Failure {
            error: SyncError::NetworkError { status: Some(503), body: String::from("down") },
        })
    );
    assert_eq!(
        report.outcome(Resource::Earnings),
        &Some(ResourceOutcome::Success { records: 7 })
    );
    assert_eq!(report.outcome(Resource::Swaps), &Some(ResourceOutcome::Success { records: 9 }));
    assert_eq!(
        report.outcome(Resource::RunePool),
        &Some(ResourceOutcome::Success { records: 4 })
    );
    assert!(!report.all_succeeded());
}

#[test]
fn all_successes_report_overall_success() {
    let mut report = RunReport::new();
    assert!(!report.all_succeeded());
    report.record_outcome(Resource::PriceDepth, ResourceOutcome::Success { records: 1 });
    report.record_outcome(Resource::Earnings, ResourceOutcome::Success { records: 2 });
    report.record_outcome(Resource::Swaps, ResourceOutcome::Success { records: 3 });
    report.record_outcome(Resource::RunePool, ResourceOutcome::Success { records: 4 });
    assert!(report.all_succeeded());
}

#[test]
fn recording_overwrites_only_that_resource() {
    let mut report = RunReport::new();
    report.record_outcome(Resource::Swaps, ResourceOutcome::Success { records: 5 });
    report.record_outcome(
        Resource::Earnings,
        ResourceOutcome::Failure { error: SyncError::NoProgress },
    );
    assert_eq!(report.outcome(Resource::Swaps), &Some(ResourceOutcome::Success { records: 5 }));
    assert_eq!(report.outcome(Resource::PriceDepth), &None);
    assert_eq!(report.outcome(Resource::RunePool), &None);
}
