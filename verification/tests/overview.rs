use uta_studio_desktop::song_detail::{
    queued_analysis_notice, run_analysis_action_gate, song_overview_rows, song_primary_action,
    AnalysisTargetSong, CandidateChartStatus, QueuedStatus, SongAuthoringState, SongOverviewFacts,
};
use uta_studio_desktop::ui_api::UiDomain;

fn facts() -> SongOverviewFacts {
    SongOverviewFacts {
        extension: Some("flac".to_string()),
        is_video: false,
        is_analyzed: true,
        transcript_source: Some("Generated".to_string()),
        has_profile_override: false,
        last_successful_run: None,
        candidate_status: CandidateChartStatus::NotAuthoredYet,
        chart_problem_count: None,
        music_analysis: None,
        has_vocal_stem: true,
        has_instrumental_stem: false,
        has_pitch_track: false,
        no_stems: false,
        authoring_ready: false,
        authoring_missing: vec!["vocal_chart".to_string(), "pitch_track".to_string()],
    }
}

#[test]
fn overview_rows_omit_what_has_nothing_to_say() {
    let rows = song_overview_rows(&facts());
    let labels = rows.iter().map(|(label, _)| *label).collect::<Vec<_>>();
    assert_eq!(
        labels,
        vec![
            "Media",
            "Analysis",
            "Active analysis profile",
            "Lyrics source",
            "Last successful run",
            "Vocal / instrumental stems",
            "Pitch evidence",
            "Chart assets",
            "Export",
        ]
    );
    assert_eq!(rows[0].1, "FLAC · Audio");
    assert_eq!(rows[4].1, "None yet");
    assert_eq!(rows[5].1, "Vocal only");
    assert_eq!(rows[7].1, "vocal chart · pitch track");
    assert_eq!(rows[8].1, "Waiting for chart");
}

#[test]
fn overview_rows_include_candidate_issue_and_music_rows_when_known() {
    let mut f = facts();
    f.extension = None;
    f.is_video = true;
    f.transcript_source = None;
    f.has_profile_override = true;
    f.last_successful_run = Some("2026-01-02 03:04".to_string());
    f.candidate_status = CandidateChartStatus::UpToDate;
    f.chart_problem_count = Some(2);
    f.music_analysis = Some(("A minor".to_string(), "120".to_string(), "n/a".to_string()));
    f.has_instrumental_stem = true;
    f.has_pitch_track = true;
    f.authoring_ready = true;
    let rows = song_overview_rows(&f);
    assert_eq!(rows.len(), 14);
    assert_eq!(rows[0], ("Media", "MEDIA · Video".to_string()));
    assert_eq!(rows[2].1, "Song override");
    assert_eq!(rows[3].1, "Not generated");
    assert_eq!(rows[4].1, "2026-01-02 03:04");
    assert_eq!(rows[5], ("Candidate availability", "Up to date".to_string()));
    assert_eq!(rows[6], ("Chart issues", "2 issues".to_string()));
    assert_eq!(rows[7].0, "Detected key");
    assert_eq!(rows[10].1, "Both available");
    assert_eq!(rows[11].1, "Available");
    assert_eq!(rows[12].1, "Complete");
    assert_eq!(rows[13].1, "UTZ · UltraStar");
}

#[test]
fn stem_copy_covers_the_original_mix() {
    let mut f = facts();
    f.has_vocal_stem = false;
    f.no_stems = true;
    assert_eq!(song_overview_rows(&f)[5].1, "Original mix");
    f.no_stems = false;
    assert_eq!(song_overview_rows(&f)[5].1, "Pending");
    f.authoring_missing.clear();
    assert_eq!(song_overview_rows(&f)[7].1, "Waiting for chart");
}

#[test]
fn primary_action_follows_the_authoring_state() {
    let (label, action) = song_primary_action("h1", Some(SongAuthoringState::InProgress), Some(QueuedStatus::Analyzing(37)), true);
    assert_eq!(label, "Analyzing · 37%");
    assert_eq!(action.api_request().command, "ui.app.toggle_activity");
    let (label, _) = song_primary_action("h1", Some(SongAuthoringState::InProgress), Some(QueuedStatus::Failed), true);
    assert_eq!(label, "Analyzing");
    let (label, _) = song_primary_action("h1", Some(SongAuthoringState::InProgress), Some(QueuedStatus::Queued), true);
    assert_eq!(label, "Queued for analysis");
    let (label, action) = song_primary_action("h1", Some(SongAuthoringState::FixChartIssues), None, true);
    assert_eq!(label, "Fix chart issues");
    assert_eq!(action.0.variant, "OpenEditor");
    assert_eq!(action.0.payload, vec!["h1".to_string()]);
    let (label, action) = song_primary_action("h1", None, None, false);
    assert_eq!(label, "Set up analysis");
    assert_eq!(action.0.domain, UiDomain::Settings);
    assert_eq!(action.0.payload, vec!["Models".to_string()]);
    let (label, action) = song_primary_action("h1", Some(SongAuthoringState::AnalyzeSong), None, true);
    assert_eq!(label, "Analyze song");
    assert_eq!(action.api_request().command, "ui.library.analyze_song");
}

#[test]
fn analysis_actions_are_refused_for_missing_songs_and_imports() {
    assert_eq!(run_analysis_action_gate("h9", None), Err("Song not found: h9".to_string()));
    let imported = AnalysisTargetSong { title: "T".to_string(), imported_usdx: true };
    assert_eq!(
        run_analysis_action_gate("h1", Some(&imported)),
        Err("This action is unavailable for imported USDX charts.".to_string())
    );
    let song = AnalysisTargetSong { title: "Rena".to_string(), imported_usdx: false };
    assert_eq!(run_analysis_action_gate("h1", Some(&song)), Ok("Rena".to_string()));
    assert_eq!(queued_analysis_notice("Rena", &Ok(())), "Queued analysis for “Rena”.");
    assert_eq!(
        queued_analysis_notice("Rena", &Err("node is required".to_string())),
        "Could not queue analysis: node is required"
    );
}
