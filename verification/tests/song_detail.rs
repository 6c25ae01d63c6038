use uta_studio_desktop::song_detail::{detected_key_copy, extra_descriptors_copy, musical_bpm_copy};
use uta_studio_desktop::settings::AnalysisQualityProfile;
use uta_studio_desktop::song_detail::{
    analysis_language_label, analysis_profile_summary, candidate_availability_copy,
    canonical_analysis_language, chart_issue_count_copy, completed_analysis_run_id, cover_image_extension,
    last_successful_run,
    lyrics_candidate_badges, lyrics_provider_status, view_song_analysis_action,
    AnalysisDefaultTarget, AnalysisProfileOverride, AnalysisRun, CandidateChartStatus,
    CandidateChartSummary, LyricsCandidateFlags, LyricsProviderView,
};
use uta_studio_desktop::ui_api::{UiAction, UiCommand, UiDomain};

#[test]
fn song_detail_no_data_omits_the_row_entirely() {
    assert_eq!(chart_issue_count_copy(None), None);
}

#[test]
fn song_detail_zero_problems_reports_none() {
    assert_eq!(chart_issue_count_copy(Some(0)), Some("None".to_string()));
}

#[test]
fn song_detail_one_problem_uses_the_singular() {
    assert_eq!(chart_issue_count_copy(Some(1)), Some("1 issue".to_string()));
}

#[test]
fn song_detail_multiple_problems_use_the_plural() {
    assert_eq!(
        chart_issue_count_copy(Some(4)),
        Some("4 issues".to_string())
    );
}

#[test]
fn tests_no_data_omits_the_row_entirely() {
    assert_eq!(chart_issue_count_copy(None), None);
}

#[test]
fn tests_zero_problems_reports_none() {
    assert_eq!(chart_issue_count_copy(Some(0)), Some("None".to_string()));
}

#[test]
fn tests_one_problem_uses_the_singular() {
    assert_eq!(chart_issue_count_copy(Some(1)), Some("1 issue".to_string()));
}

#[test]
fn tests_multiple_problems_use_the_plural() {
    assert_eq!(
        chart_issue_count_copy(Some(4)),
        Some("4 issues".to_string())
    );
}

#[test]
fn large_problem_counts_are_written_in_full() {
    assert_eq!(chart_issue_count_copy(Some(1205)), Some("1205 issues".to_string()));
}

#[test]
fn song_detail_analysis_button_targets_the_clicked_song() {
    assert_eq!(
        view_song_analysis_action("song-a"),
        UiAction(UiCommand::with_value(
            UiDomain::Analysis,
            "OpenSongAnalysis",
            "song-a"
        ))
    );
}

#[test]
fn tests_not_authored_yet_omits_the_row_entirely() {
    assert_eq!(
        candidate_availability_copy(&CandidateChartStatus::NotAuthoredYet),
        None
    );
}

#[test]
fn tests_up_to_date_reports_up_to_date() {
    assert_eq!(
        candidate_availability_copy(&CandidateChartStatus::UpToDate),
        Some("Up to date".to_string())
    );
}

#[test]
fn tests_candidate_available_names_what_changed_and_the_note_counts() {
    let copy = candidate_availability_copy(&CandidateChartStatus::CandidateAvailable(
        CandidateChartSummary {
            authored_phrase_count: 2,
            authored_note_count: 10,
            candidate_phrase_count: 3,
            candidate_note_count: 14,
            lyrics_changed: true,
            pitch_evidence_changed: true,
        },
    ))
    .unwrap();
    assert!(copy.contains("lyrics"));
    assert!(copy.contains("pitch"));
    assert!(copy.contains("14 notes"));
    assert!(copy.contains("10 authored"));
    assert_eq!(copy, "New candidate available (lyrics & pitch · 14 notes vs 10 authored)");
}

#[test]
fn tests_candidate_available_only_names_the_input_that_actually_changed() {
    let copy = candidate_availability_copy(&CandidateChartStatus::CandidateAvailable(
        CandidateChartSummary {
            authored_phrase_count: 1,
            authored_note_count: 5,
            candidate_phrase_count: 1,
            candidate_note_count: 5,
            lyrics_changed: true,
            pitch_evidence_changed: false,
        },
    ))
    .unwrap();
    assert!(copy.contains("lyrics"));
    assert!(!copy.contains("pitch"));
}

fn run(id: i64, file_hash: &str, status: &str, finished_at_ms: i64) -> AnalysisRun {
    AnalysisRun {
        id,
        file_hash: file_hash.to_string(),
        status: status.to_string(),
        finished_at_ms,
    }
}

#[test]
fn last_run_is_the_first_completed_run_of_this_song() {
    let history = vec![
        run(4, "songB", "completed", 9000),
        run(3, "songA", "failed", 8000),
        run(2, "songA", "completed", 5000),
        run(1, "songA", "completed", 2000),
    ];
    assert_eq!(last_successful_run(&history, "songA"), Some(5000));
    assert_eq!(last_successful_run(&history, "songB"), Some(9000));
    assert_eq!(last_successful_run(&history, "songC"), None);
    assert_eq!(last_successful_run(&vec![run(1, "songA", "failed", 1000)], "songA"), None);
}

#[test]
fn song_detail_labels_global_and_song_sources_explicitly() {
    let global = analysis_profile_summary(
        AnalysisQualityProfile::Balanced,
        AnalysisDefaultTarget::FullCandidate,
        None,
    );
    assert!(global.contains("Balanced"));
    assert!(global.contains("Candidate chart"));
    assert_eq!(global.matches("Source: GLOBAL").count(), 2);
    assert!(global.contains("only after re-analysis"));

    let override_settings = AnalysisProfileOverride {
        quality_profile: Some(AnalysisQualityProfile::Maximum),
        default_target: Some(AnalysisDefaultTarget::PitchEvidence),
    };
    let song = analysis_profile_summary(
        AnalysisQualityProfile::Balanced,
        AnalysisDefaultTarget::FullCandidate,
        Some(&override_settings),
    );
    assert!(song.contains("Maximum"));
    assert!(song.contains("PitchEvidence"));
    assert_eq!(song.matches("Source: SONG").count(), 2);
}

#[test]
fn a_partial_override_mixes_song_and_global_sources() {
    let partial = AnalysisProfileOverride {
        quality_profile: None,
        default_target: Some(AnalysisDefaultTarget::Transcript),
    };
    let summary = analysis_profile_summary(
        AnalysisQualityProfile::Fast,
        AnalysisDefaultTarget::Alignment,
        Some(&partial),
    );
    assert!(summary.starts_with("Quality: Fast · Source: GLOBAL. Target: Transcript · Source: SONG."));
}

#[test]
fn canonical_language_maps_aliases_and_rejects_unknown_codes() {
    assert_eq!(canonical_analysis_language("  JP "), "ja");
    assert_eq!(canonical_analysis_language("eng"), "en");
    assert_eq!(canonical_analysis_language("KOR"), "ko");
    assert_eq!(canonical_analysis_language("zh_TW"), "zh");
    assert_eq!(canonical_analysis_language("zh-cn"), "zh");
    assert_eq!(canonical_analysis_language("fr"), "fr");
    assert_eq!(canonical_analysis_language("\tHi\n"), "hi");
    assert_eq!(canonical_analysis_language("klingon"), "auto");
    assert_eq!(canonical_analysis_language(""), "auto");
    assert_eq!(canonical_analysis_language("\u{3000}ja\u{3000}"), "ja");
}

#[test]
fn language_labels_fall_back_to_automatic_detection() {
    assert_eq!(analysis_language_label("ja"), "Japanese");
    assert_eq!(analysis_language_label("hi"), "Hindi");
    assert_eq!(analysis_language_label("auto"), "Automatic detection");
    assert_eq!(analysis_language_label("xx"), "Automatic detection");
}

#[test]
fn candidate_badges_list_extras_or_plain() {
    let flags = |timed, translation, romanization| LyricsCandidateFlags {
        has_timed_lyrics: timed,
        has_translation: translation,
        has_romanization: romanization,
    };
    assert_eq!(lyrics_candidate_badges(&flags(false, false, false)), "PLAIN");
    assert_eq!(lyrics_candidate_badges(&flags(true, false, true)), "TIMED / ROMANIZATION");
    assert_eq!(
        lyrics_candidate_badges(&flags(true, true, true)),
        "TIMED / TRANSLATION / ROMANIZATION"
    );
}

#[test]
fn provider_status_prefers_errors_then_searching_then_counts() {
    let provider = |error: Option<&str>, candidates| LyricsProviderView {
        name: "LRCLIB".to_string(),
        error: error.map(str::to_string),
        candidates,
    };
    assert_eq!(
        lyrics_provider_status(&provider(Some("timeout"), 3), true),
        ("LRCLIB · ERROR · timeout".to_string(), true)
    );
    assert_eq!(
        lyrics_provider_status(&provider(None, 3), true),
        ("LRCLIB · SEARCHING".to_string(), false)
    );
    assert_eq!(
        lyrics_provider_status(&provider(None, 1), false),
        ("LRCLIB · 1 candidate".to_string(), false)
    );
    assert_eq!(
        lyrics_provider_status(&provider(None, 0), false),
        ("LRCLIB · 0 candidates".to_string(), false)
    );
}

#[test]
fn song_detail_not_authored_yet_omits_the_row_entirely() {
    assert_eq!(
        candidate_availability_copy(&CandidateChartStatus::NotAuthoredYet),
        None
    );
}

#[test]
fn song_detail_up_to_date_reports_up_to_date() {
    assert_eq!(
        candidate_availability_copy(&CandidateChartStatus::UpToDate),
        Some("Up to date".to_string())
    );
}

#[test]
fn song_detail_candidate_available_names_what_changed_and_the_note_counts() {
    let copy = candidate_availability_copy(&CandidateChartStatus::CandidateAvailable(
        CandidateChartSummary {
            authored_phrase_count: 2,
            authored_note_count: 10,
            candidate_phrase_count: 3,
            candidate_note_count: 14,
            lyrics_changed: true,
            pitch_evidence_changed: true,
        },
    ))
    .unwrap();
    assert!(copy.contains("lyrics"));
    assert!(copy.contains("pitch"));
    assert!(copy.contains("14 notes"));
    assert!(copy.contains("10 authored"));
}

#[test]
fn song_detail_candidate_available_only_names_the_input_that_actually_changed() {
    let copy = candidate_availability_copy(&CandidateChartStatus::CandidateAvailable(
        CandidateChartSummary {
            authored_phrase_count: 1,
            authored_note_count: 5,
            candidate_phrase_count: 1,
            candidate_note_count: 5,
            lyrics_changed: true,
            pitch_evidence_changed: false,
        },
    ))
    .unwrap();
    assert!(copy.contains("lyrics"));
    assert!(!copy.contains("pitch"));
}

fn finished(file_hash: &str, status: &str, finished_at_ms: i64) -> AnalysisRun {
    AnalysisRun {
        id: 1,
        file_hash: file_hash.to_string(),
        status: status.to_string(),
        finished_at_ms,
    }
}

#[test]
fn song_detail_finds_the_most_recent_completed_run_for_this_song() {
    let history = vec![finished("songA", "completed", 2_000), finished("songB", "completed", 5_000)];
    assert_eq!(last_successful_run(&history, "songA"), Some(2_000));
}

#[test]
fn song_detail_ignores_a_failed_run_and_falls_back_to_an_earlier_success() {
    let history = vec![finished("songA", "failed", 9_000), finished("songA", "completed", 3_000)];
    assert_eq!(last_successful_run(&history, "songA"), Some(3_000));
}

#[test]
fn song_detail_a_newest_first_ordered_list_returns_the_first_match_not_just_any_match() {
    let history = vec![finished("songA", "completed", 9_000), finished("songA", "completed", 1_000)];
    assert_eq!(last_successful_run(&history, "songA"), Some(9_000));
}

#[test]
fn song_detail_a_song_with_no_completed_run_shows_none_yet() {
    let history = vec![finished("songA", "failed", 1_000)];
    assert_eq!(last_successful_run(&history, "songA"), None);
}

#[test]
fn song_detail_a_different_songs_completed_run_is_not_matched() {
    let history = vec![finished("songB", "completed", 1_000)];
    assert_eq!(last_successful_run(&history, "songA"), None);
}

#[test]
fn tests_finds_the_most_recent_completed_run_for_this_song() {
    let history = vec![finished("songA", "completed", 2_000), finished("songB", "completed", 5_000)];
    assert_eq!(last_successful_run(&history, "songA"), Some(2_000));
}

#[test]
fn tests_ignores_a_failed_run_and_falls_back_to_an_earlier_success() {
    let history = vec![finished("songA", "failed", 9_000), finished("songA", "completed", 3_000)];
    assert_eq!(last_successful_run(&history, "songA"), Some(3_000));
}

#[test]
fn tests_a_newest_first_ordered_list_returns_the_first_match_not_just_any_match() {
    let history = vec![finished("songA", "completed", 9_000), finished("songA", "completed", 1_000)];
    assert_eq!(last_successful_run(&history, "songA"), Some(9_000));
}

#[test]
fn tests_a_song_with_no_completed_run_shows_none_yet() {
    let history = vec![finished("songA", "failed", 1_000)];
    assert_eq!(last_successful_run(&history, "songA"), None);
}

#[test]
fn tests_a_different_songs_completed_run_is_not_matched() {
    let history = vec![finished("songB", "completed", 1_000)];
    assert_eq!(last_successful_run(&history, "songA"), None);
}

fn analysis_run(id: i64, file_hash: &str, status: &str) -> AnalysisRun {
    AnalysisRun {
        id,
        file_hash: file_hash.to_string(),
        status: status.to_string(),
        finished_at_ms: id * 100 + 50,
    }
}

#[test]
fn clicked_song_selects_its_newest_completed_analysis() {
    let history = vec![
        analysis_run(3, "song-a", "failed"),
        analysis_run(2, "song-b", "completed"),
        analysis_run(1, "song-a", "completed"),
    ];

    assert_eq!(completed_analysis_run_id(&history, "song-a"), Some(1));
    assert_eq!(completed_analysis_run_id(&history, "song-b"), Some(2));
}

#[test]
fn clicked_song_does_not_open_an_unrelated_or_failed_analysis() {
    let history = vec![analysis_run(3, "song-a", "failed"), analysis_run(2, "song-b", "completed")];

    assert_eq!(completed_analysis_run_id(&history, "song-a"), None);
    assert_eq!(completed_analysis_run_id(&history, "missing"), None);
}

#[test]
fn album_art_is_png_only_with_the_png_signature() {
    let png = [0x89u8, b'P', b'N', b'G', b'\r', b'\n', 0x1a, b'\n', 0, 0, 0, 13];
    assert_eq!(cover_image_extension(&png), "png");
    assert_eq!(cover_image_extension(&png[..8]), "png");
    assert_eq!(cover_image_extension(&png[..7]), "jpg");
    assert_eq!(cover_image_extension(&[0xffu8, 0xd8, 0xff, 0xe0, 0, 0, 0, 0, 0]), "jpg");
    assert_eq!(cover_image_extension(&[]), "jpg");
}

#[test]
fn canonical_language_is_stable() {
    for typed in ["  JP ", "eng", "zh_TW", "Fr", "\u{3000}de\u{3000}", "klingon", "", "auto", "hi"] {
        let once = canonical_analysis_language(typed);
        assert_eq!(canonical_analysis_language(&once), once, "{typed:?}");
    }
    assert_eq!(canonical_analysis_language("\u{3000}de\u{3000}"), "de");
}

#[test]
fn detected_key_names_tonic_and_scale_or_reads_unknown() {
    assert_eq!(detected_key_copy(Some("F#"), Some("minor"), "0.80"), "F# minor (confidence 0.80)");
    assert_eq!(detected_key_copy(Some("C"), None, "0.50"), "C (confidence 0.50)");
    let unknown = detected_key_copy(None, Some("major"), "0.00");
    assert!(unknown.starts_with("Unknown"));
    assert!(!unknown.contains("fail"));
}

#[test]
fn musical_bpm_names_the_bpm_only_fallback() {
    assert_eq!(musical_bpm_copy(None, "0.90", 3), "Unavailable");
    let fallback = musical_bpm_copy(Some("120.0"), "0.90", 0);
    assert!(fallback.contains("120"));
    assert!(fallback.contains("BPM-only"));
    assert!(!fallback.contains("0 beats"));
    let grid = musical_bpm_copy(Some("120.0"), "0.90", 3);
    assert_eq!(grid, "120.0 (confidence 0.90) · 3 beats");
    assert!(!grid.contains("BPM-only"));
}

#[test]
fn extra_descriptors_are_formatted_or_not_applicable() {
    assert_eq!(extra_descriptors_copy(None), "Not Applicable");
    let present = extra_descriptors_copy(Some(("0.72", "8.3", "-12.4")));
    assert_eq!(present, "Danceability 0.72 · Dynamic range 8.3 dB · Loudness -12.4 dB");
}
