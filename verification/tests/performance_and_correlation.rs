use powerhouse::correlation::{nearest_snapshot, CORRELATION_WINDOW_MS};
use powerhouse::health::{count_anomaly, performance_summary, PerformanceAnomalyLevel};

#[test]
fn selects_the_nearest_snapshot_within_the_window() {
    let stamps = vec![9_000u128, 10_100];
    assert_eq!(nearest_snapshot(&stamps, Some(10_000), CORRELATION_WINDOW_MS), Some(1));
    assert_eq!(nearest_snapshot(&vec![40_001u128], Some(10_000), CORRELATION_WINDOW_MS), None);
    assert_eq!(nearest_snapshot(&vec![10_000u128], None, CORRELATION_WINDOW_MS), None);
    assert_eq!(nearest_snapshot(&vec![9_900u128, 10_100], Some(10_000), CORRELATION_WINDOW_MS), Some(0));
    assert_eq!(nearest_snapshot(&vec![40_000u128], Some(10_000), CORRELATION_WINDOW_MS), Some(0));
}

#[test]
fn counts_are_assessed_against_their_thresholds() {
    let (level, text) = count_anomaly("Process count", 160, 100, 60, 10, 50);
    assert_eq!(level, PerformanceAnomalyLevel::Significant);
    assert_eq!(text, "Process count is higher than the recent local baseline by 60.");
    let (level, text) = count_anomaly("Running process count", 3, 5, 2, 2, 10);
    assert_eq!(level, PerformanceAnomalyLevel::Elevated);
    assert_eq!(text, "Running process count is lower than the recent local baseline by 2.");
    let (level, text) = count_anomaly("Process count", 101, 100, 1, 10, 50);
    assert_eq!(level, PerformanceAnomalyLevel::Normal);
    assert_eq!(text, "Process count is consistent with the recent local baseline.");
}

#[test]
fn performance_summaries_count_the_worst_level() {
    let (overall, text) = performance_summary(&vec![PerformanceAnomalyLevel::Normal, PerformanceAnomalyLevel::Normal]);
    assert_eq!(overall, PerformanceAnomalyLevel::Normal);
    assert_eq!(text, "Current performance is consistent with the recent local baseline.");
    let (overall, text) = performance_summary(&vec![PerformanceAnomalyLevel::Elevated, PerformanceAnomalyLevel::Normal]);
    assert_eq!(overall, PerformanceAnomalyLevel::Elevated);
    assert_eq!(text, "1 performance signal is elevated relative to the recent local baseline.");
    let (overall, text) = performance_summary(&vec![PerformanceAnomalyLevel::Significant, PerformanceAnomalyLevel::Elevated, PerformanceAnomalyLevel::Significant]);
    assert_eq!(overall, PerformanceAnomalyLevel::Significant);
    assert_eq!(
        text,
        "2 performance signals are significantly different from the recent local baseline."
    );
    assert_eq!(performance_summary(&vec![]).0, PerformanceAnomalyLevel::Normal);
}
