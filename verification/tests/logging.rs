use uta_studio_desktop::logging::{
    normal_log_filter, normal_log_filter_directives, poll_debug_log_job, split_chars,
    start_debug_log_job, studio_log_filter, DebugLogJob, DebugLogPoll,
};

#[test]
fn expected_icu_cjk_fallback_does_not_flood_desktop_logs() {
    assert!(studio_log_filter().contains("icu_provider=error"));
}

#[test]
fn studio_filter_extends_the_bevy_default() {
    let filter = studio_log_filter();
    assert!(filter.starts_with(bevy::log::DEFAULT_FILTER));
    assert!(filter.ends_with(",icu_provider=error"));
}

#[test]
fn target_filter_retains_default_desktop_and_icu_directives() {
    let filter = normal_log_filter_directives("uta_studio=debug");
    assert!(filter.split(',').any(|directive| directive == "info"));
    assert!(filter.contains("icu_provider=error"));
    assert!(filter.contains("uta_studio=debug"));
    let built = normal_log_filter("uta_studio=debug").to_string();
    assert!(built.contains("uta_studio=debug"));
}

#[test]
fn an_invalid_directive_falls_back_to_the_defaults() {
    let defaults = format!("info,{}", studio_log_filter());
    assert_eq!(normal_log_filter_directives(""), defaults);
    assert_eq!(normal_log_filter_directives("a=debug,,b=warn"), format!("{defaults},a=debug,b=warn"));
    assert_eq!(normal_log_filter_directives("a=debug,[[[=nope"), defaults);
}

#[test]
fn split_matches_str_split() {
    for text in ["", ",", "a", "a,b", ",a,,b,", "uta_studio=debug"] {
        let expected = text.split(',').map(str::to_string).collect::<Vec<_>>();
        assert_eq!(split_chars(text, ','), expected);
    }
}

#[test]
fn a_second_export_request_does_not_start_another_worker() {
    let mut job = DebugLogJob::default();
    let (notice, start) = start_debug_log_job(&mut job);
    assert!(start);
    assert_eq!(notice, "Saving full retained logs and enabling live DEBUG capture…");
    let (notice, start) = start_debug_log_job(&mut job);
    assert!(!start);
    assert_eq!(notice, "Debug log export is already running…");
}

#[test]
fn completed_export_displays_location_and_capture_scope() {
    let mut job = DebugLogJob::default();
    start_debug_log_job(&mut job);
    let outcome = poll_debug_log_job(
        &mut job,
        None,
        DebugLogPoll::Finished(Ok("isolated-debug-output".to_string())),
    );
    let notice = outcome.notice.unwrap();
    assert!(notice.contains("isolated-debug-output"));
    assert!(notice.contains("until exit"));
    assert!(!job.running);
    assert!(job.capture_active);
    assert!(outcome.invalidate);
}

#[test]
fn failed_export_displays_error_without_reporting_success() {
    let mut job = DebugLogJob::default();
    start_debug_log_job(&mut job);
    let outcome = poll_debug_log_job(
        &mut job,
        None,
        DebugLogPoll::Finished(Err("isolated disk error".to_string())),
    );
    let notice = outcome.notice.unwrap();
    assert!(notice.contains("failed: isolated disk error"));
    assert!(!job.capture_active);
}

#[test]
fn a_pending_export_changes_nothing_and_a_lost_worker_fails() {
    let mut job = DebugLogJob::default();
    start_debug_log_job(&mut job);
    let outcome = poll_debug_log_job(&mut job, None, DebugLogPoll::Pending);
    assert!(outcome.notice.is_none() && !outcome.invalidate && job.running);
    let outcome = poll_debug_log_job(&mut job, None, DebugLogPoll::WorkerExited);
    assert_eq!(
        outcome.notice.unwrap(),
        "DEBUG log export failed: Debug log export worker exited unexpectedly"
    );
}

#[test]
fn live_capture_errors_are_reported_once() {
    let mut job = DebugLogJob::default();
    start_debug_log_job(&mut job);
    poll_debug_log_job(&mut job, None, DebugLogPoll::Finished(Ok("log".to_string())));
    let first = poll_debug_log_job(&mut job, Some("pipe closed".to_string()), DebugLogPoll::Pending);
    assert_eq!(first.notice.unwrap(), "DEBUG live capture failed: pipe closed");
    let again = poll_debug_log_job(&mut job, Some("pipe closed".to_string()), DebugLogPoll::Pending);
    assert!(again.notice.is_none() && !again.invalidate);
}
