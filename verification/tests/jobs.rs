use uta_studio_desktop::jobs::{
    cache_stats_scan_wanted, poll_authoring_job, setup_panel, poll_lyrics_waveform_job, AuthoringPoll,
    failure_messages, RenderedVariant, SnapshotJob, SnapshotKind, SnapshotPoll, WaveformOutcome, WaveformPoll,
    poll_native_setup, NativeSetup, SetupEvent, SetupPoll, SetupProgress, SETUP_LOG_LIMIT,
};

fn received(events: Vec<SetupEvent>) -> SetupPoll {
    SetupPoll::Received { events, disconnected: false }
}

#[test]
fn progress_updates_the_notice_and_first_repaint_is_immediate() {
    let mut setup = NativeSetup::started();
    let outcome = poll_native_setup(
        &mut setup,
        received(vec![SetupEvent::Progress(SetupProgress {
            action: "Downloading RMVPE".to_string(),
            percent: 42,
        })]),
        1_000,
    );
    assert_eq!(outcome.notice.as_deref(), Some("Downloading RMVPE · 42%"));
    assert!(outcome.invalidate);
    assert!(!outcome.finished);
    assert_eq!(setup.last_ui_refresh_ms, Some(1_000));
    assert_eq!(setup.progress.as_ref().unwrap().percent, 42);
}

#[test]
fn repaints_are_throttled_while_setup_runs() {
    let mut setup = NativeSetup::started();
    poll_native_setup(&mut setup, received(vec![SetupEvent::Log("a".to_string())]), 1_000);
    let soon = poll_native_setup(&mut setup, received(vec![SetupEvent::Log("b".to_string())]), 1_279);
    assert!(!soon.invalidate);
    assert_eq!(setup.last_ui_refresh_ms, Some(1_000));
    let later = poll_native_setup(&mut setup, received(vec![SetupEvent::Log("c".to_string())]), 1_280);
    assert!(later.invalidate);
    assert_eq!(setup.last_ui_refresh_ms, Some(1_280));
    assert_eq!(setup.logs, vec!["a", "b", "c"]);
}

#[test]
fn the_log_keeps_only_the_newest_lines() {
    let mut setup = NativeSetup::started();
    for batch in 0..5 {
        let events = (0..70)
            .map(|line| SetupEvent::Log(format!("{batch}-{line}")))
            .collect::<Vec<_>>();
        poll_native_setup(&mut setup, received(events), batch * 1_000);
    }
    assert_eq!(setup.logs.len(), SETUP_LOG_LIMIT);
    assert_eq!(setup.logs.first().unwrap(), "2-10");
    assert_eq!(setup.logs.last().unwrap(), "4-69");
}

#[test]
fn completion_stops_the_job_and_always_repaints() {
    let mut setup = NativeSetup::started();
    poll_native_setup(&mut setup, received(vec![SetupEvent::Log("a".to_string())]), 1_000);
    let outcome = poll_native_setup(
        &mut setup,
        received(vec![SetupEvent::Complete(Err("no space".to_string()))]),
        1_001,
    );
    assert_eq!(outcome.notice.as_deref(), Some("Analysis runtime setup failed: no space"));
    assert!(outcome.finished && outcome.invalidate);
    assert!(!setup.running && setup.progress.is_none());
    let after = poll_native_setup(&mut setup, received(vec![SetupEvent::Log("x".to_string())]), 5_000);
    assert_eq!(after.notice, None);
    assert!(!after.invalidate);
}

#[test]
fn a_vanished_worker_fails_the_setup_after_its_last_events() {
    let mut setup = NativeSetup::started();
    let outcome = poll_native_setup(
        &mut setup,
        SetupPoll::Received {
            events: vec![SetupEvent::Log("last words".to_string())],
            disconnected: true,
        },
        10,
    );
    assert_eq!(
        outcome.notice.as_deref(),
        Some("Analysis runtime setup failed: Analysis setup worker exited unexpectedly.")
    );
    assert!(outcome.finished);
    assert_eq!(setup.logs, vec!["last words"]);
}

#[test]
fn a_poisoned_channel_abandons_the_job() {
    let mut setup = NativeSetup::started();
    let outcome = poll_native_setup(&mut setup, SetupPoll::Poisoned, 10);
    assert_eq!(outcome.notice.as_deref(), Some("Analysis setup status channel was poisoned."));
    assert!(outcome.invalidate && !outcome.finished && !setup.running);
}

#[test]
fn an_empty_poll_changes_nothing() {
    let mut setup = NativeSetup::started();
    let outcome = poll_native_setup(&mut setup, received(Vec::new()), 10);
    assert_eq!(outcome.notice, None);
    assert!(!outcome.invalidate);
    assert_eq!(setup.last_ui_refresh_ms, None);
}

use uta_studio_desktop::jobs::{
    diagnostics_notice, lyrics_search_notice, start_key_shift, DiagnosticSummary, KeyShiftPlan,
    KeyShiftSong,
};

#[test]
fn diagnostics_notices_count_each_outcome() {
    let report = DiagnosticSummary { ok: true, passed: 12, failed: 0, skipped: 3 };
    assert_eq!(diagnostics_notice(&Ok(report)), "Diagnostics passed: 12 passed, 0 failed, 3 skipped.");
    let report = DiagnosticSummary { ok: false, passed: 1, failed: 2, skipped: 0 };
    assert_eq!(diagnostics_notice(&Ok(report)), "Diagnostics completed: 1 passed, 2 failed, 0 skipped.");
    assert_eq!(diagnostics_notice(&Err("worker gone".to_string())), "worker gone");
}

#[test]
fn lyrics_search_notices() {
    assert_eq!(lyrics_search_notice(&Ok(0), true).as_deref(), Some("LRCLIB did not return a matching lyric."));
    assert_eq!(
        lyrics_search_notice(&Ok(3), true).as_deref(),
        Some("Found 3 LRCLIB lyric candidate(s). Review before applying.")
    );
    assert_eq!(lyrics_search_notice(&Ok(3), false), None);
    assert_eq!(lyrics_search_notice(&Err("offline".to_string()), false).as_deref(), Some("offline"));
}

#[test]
fn key_shift_requests_are_clamped_and_refused_at_the_limit() {
    let song = KeyShiftSong { key: Some("Am".to_string()), key_offset: 4 };
    let mut busy = false;
    assert_eq!(
        start_key_shift("h", 1, &mut busy, Some(&song)),
        KeyShiftPlan::Render {
            key: "Dm".to_string(),
            offset: 5,
            notice: "Rendering key variant Dm…".to_string()
        }
    );
    assert!(busy);
    assert_eq!(
        start_key_shift("h", 1, &mut busy, Some(&song)),
        KeyShiftPlan::Refused("A key or tempo render is already running.".to_string())
    );
    let mut idle = false;
    let at_limit = KeyShiftSong { key: Some("C".to_string()), key_offset: 5 };
    assert_eq!(
        start_key_shift("h", 3, &mut idle, Some(&at_limit)),
        KeyShiftPlan::Refused("Key shift is limited to five semitones in either direction.".to_string())
    );
    assert!(!idle);
    let unknown = KeyShiftSong { key: None, key_offset: 0 };
    assert_eq!(
        start_key_shift("h", 1, &mut idle, Some(&unknown)),
        KeyShiftPlan::Refused("Analyze the song again to detect its original key.".to_string())
    );
    assert_eq!(
        start_key_shift("h7", 1, &mut idle, None),
        KeyShiftPlan::Refused("Song not found: h7".to_string())
    );
    let far = KeyShiftSong { key: Some("C".to_string()), key_offset: 0 };
    match start_key_shift("h", -100, &mut idle, Some(&far)) {
        KeyShiftPlan::Render { key, offset, .. } => {
            assert_eq!(offset, -5);
            assert_eq!(key, "G");
        }
        other => panic!("{other:?}"),
    }
}

#[test]
fn snapshot_jobs_run_one_worker_and_keep_the_last_snapshot() {
    let mut job: SnapshotJob<u32> = SnapshotJob::new();
    assert!(job.start());
    assert!(!job.start());
    assert!(!job.poll(SnapshotPoll::Empty, SnapshotKind::CacheStats));
    assert!(job.running);
    assert!(job.poll(SnapshotPoll::Received(Ok(7)), SnapshotKind::CacheStats));
    assert!(!job.running);
    assert_eq!(job.current, Some(7));
    assert!(job.start());
    assert!(job.poll(SnapshotPoll::Disconnected, SnapshotKind::CacheStats));
    assert_eq!(job.current, Some(7));
    assert_eq!(job.error.as_deref(), Some("Cache stats worker exited unexpectedly."));
    assert!(job.start());
    assert_eq!(job.error, None);
    assert!(job.poll(SnapshotPoll::Poisoned, SnapshotKind::ModelStatus));
    assert_eq!(job.error.as_deref(), Some("Model status channel was poisoned."));
    assert!(job.start());
    assert!(job.poll(SnapshotPoll::Received(Err("registry locked".to_string())), SnapshotKind::ModelStatus));
    assert_eq!(job.error.as_deref(), Some("registry locked"));
    assert_eq!(job.current, Some(7));
}

#[test]
fn cache_scans_start_only_without_a_snapshot_or_worker() {
    assert!(cache_stats_scan_wanted(true, false, false));
    assert!(!cache_stats_scan_wanted(false, false, false));
    assert!(!cache_stats_scan_wanted(true, true, false));
    assert!(!cache_stats_scan_wanted(true, false, true));
}

#[test]
fn render_polls_release_the_job_and_report() {
    let (mut running, mut busy) = (true, true);
    let outcome = poll_authoring_job(&mut running, &mut busy, AuthoringPoll::Empty);
    assert_eq!(outcome.notice, None);
    assert!(running && busy);
    let outcome = poll_authoring_job(
        &mut running,
        &mut busy,
        AuthoringPoll::Finished {
            kind: "key".to_string(),
            result: Ok(RenderedVariant { key: "D".to_string(), tempo: "1.0".to_string() }),
        },
    );
    assert!(!running && !busy);
    assert!(outcome.refresh_library && outcome.repaint);
    assert_eq!(outcome.notice.as_deref(), Some("Song key shifted successfully · key D · 1.0× tempo."));
    let outcome = poll_authoring_job(
        &mut running,
        &mut busy,
        AuthoringPoll::Finished { kind: "tempo".to_string(), result: Err("disk full".to_string()) },
    );
    assert_eq!(outcome.notice.as_deref(), Some("Could not render tempo variant: disk full"));
    assert!(!outcome.refresh_library);
    let (mut running, mut busy) = (true, true);
    let outcome = poll_authoring_job(&mut running, &mut busy, AuthoringPoll::Disconnected);
    assert_eq!(outcome.notice.as_deref(), Some("Key/tempo render worker exited unexpectedly."));
    assert!(!running && !busy);
}

#[test]
fn waveforms_reach_only_the_editor_they_were_made_for() {
    let mut running = true;
    assert!(matches!(
        poll_lyrics_waveform_job::<Vec<u8>>(&mut running, Some("h1"), WaveformPoll::Empty),
        WaveformOutcome::Nothing
    ));
    assert!(running);
    let applied = poll_lyrics_waveform_job(
        &mut running,
        Some("h1"),
        WaveformPoll::Finished { file_hash: "h1".to_string(), result: Ok(vec![1u8, 2]) },
    );
    assert!(matches!(applied, WaveformOutcome::Apply(ref w) if *w == vec![1, 2]));
    assert!(!running);
    let mut running = true;
    let other = poll_lyrics_waveform_job(
        &mut running,
        Some("h2"),
        WaveformPoll::Finished { file_hash: "h1".to_string(), result: Ok(vec![1u8]) },
    );
    assert!(matches!(other, WaveformOutcome::Dropped));
    assert!(!running);
    let failed = poll_lyrics_waveform_job::<Vec<u8>>(
        &mut running,
        Some("h1"),
        WaveformPoll::Finished { file_hash: "h1".to_string(), result: Err("decode".to_string()) },
    );
    assert!(matches!(failed, WaveformOutcome::Failed(ref e) if e == "decode"));
    let lost = poll_lyrics_waveform_job::<Vec<u8>>(&mut running, Some("h1"), WaveformPoll::Disconnected);
    assert!(matches!(lost, WaveformOutcome::Dropped));
}

#[test]
fn setup_panel_shows_progress_and_the_last_log_lines() {
    let mut setup = NativeSetup::started();
    let panel = setup_panel(&setup);
    assert_eq!(panel.percent, 0);
    assert_eq!(panel.action, "Starting setup…");
    assert!(panel.log_tail.is_empty());
    setup.progress = Some(SetupProgress { action: "Downloading RMVPE".to_string(), percent: 40 });
    setup.logs = (1..=6).map(|i| format!("line {i}")).collect();
    let panel = setup_panel(&setup);
    assert_eq!(panel.percent, 40);
    assert_eq!(panel.action, "Downloading RMVPE");
    assert_eq!(panel.log_tail, vec!["line 3", "line 4", "line 5", "line 6"]);
}

#[test]
fn each_worker_names_itself_when_it_fails() {
    assert_eq!(
        failure_messages(SnapshotKind::Diagnostics),
        (
            "Feature diagnostics worker exited unexpectedly.",
            "Feature diagnostics status channel was poisoned."
        )
    );
    assert_eq!(failure_messages(SnapshotKind::CacheStats).0, "Cache stats worker exited unexpectedly.");
}
