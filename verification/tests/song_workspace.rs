use uta_studio_desktop::song_detail::{CandidateChartStatus, CandidateChartSummary};
use uta_studio_desktop::song_workspace::{
    analysis_card_rows, analysis_heading_action, cache_delete_confirmation, chart_delete_confirmation,
    chart_replace_confirmation, audio_card, authoring_card_rows, history_card_row,
    lyrics_card_rows, no_song_prompt, overview_card, song_hero, song_settings_panel, AudioCard, DetailRow, SongSettingsFacts,
    SongHeroFacts, SongWorkspaceFacts, StepIcon,
};
use uta_studio_desktop::settings::ThemeColor;
use uta_studio_desktop::ui_api::{UiAction, UiCommand, UiDomain};

fn song() -> SongWorkspaceFacts {
    SongWorkspaceFacts {
        file_hash: "h1".to_string(),
        is_analyzed: true,
        usdx_transcript: false,
        candidate_status: CandidateChartStatus::UpToDate,
        language: Some("ja".to_string()),
        key: Some("C major".to_string()),
        override_key: None,
        tempo_label: "1.0×".to_string(),
        editor_ready: true,
        editor_blocked_reason: None,
        authoring_ready: true,
    }
}

fn labels(rows: &[DetailRow]) -> Vec<&str> {
    rows.iter().map(|r| r.label.as_str()).collect()
}

fn with(domain: UiDomain, variant: &str, value: &str) -> UiAction {
    UiAction(UiCommand::with_value(domain, variant, value))
}

#[test]
fn overview_card_keeps_only_its_rows_in_order() {
    let rows = vec![
        ("Media", "MP3 · Audio".to_string()),
        ("Last successful run", "yesterday".to_string()),
        ("Chart issues", "None".to_string()),
        ("Export", "UTZ · UltraStar".to_string()),
        ("Pitch evidence", "Available".to_string()),
    ];
    let (settings, kept) = overview_card("h1", &rows);
    assert_eq!(settings.0, "Settings");
    assert_eq!(settings.1, with(UiDomain::Editor, "OpenSongSettings", "h1"));
    assert_eq!(
        kept,
        vec![
            ("Last successful run", "yesterday".to_string()),
            ("Chart issues", "None".to_string()),
            ("Pitch evidence", "Available".to_string()),
        ]
    );
}

#[test]
fn analysis_card_offers_analysis_only_when_missing() {
    assert!(analysis_heading_action(&song()).is_none());
    let mut fresh = song();
    fresh.is_analyzed = false;
    let (caption, action) = analysis_heading_action(&fresh).unwrap();
    assert_eq!(caption, "Analyze now");
    assert_eq!(action, with(UiDomain::Analysis, "AnalyzeNow", "h1"));
}

#[test]
fn analysis_card_offers_candidate_replacement_for_a_newer_candidate() {
    let queue = ("Queue".to_string(), with(UiDomain::Library, "AnalyzeSong", "h1"));
    let rows = analysis_card_rows(&song(), "summary".to_string(), queue);
    assert_eq!(labels(&rows), vec!["Workflow", "Processing queue", "Analysis profile"]);
    assert!(rows[0].description.starts_with("Analyzed."));
    assert_eq!(rows[2].description, "summary");
    assert_eq!(
        rows[2].action.as_ref().unwrap().1,
        with(UiDomain::Settings, "SettingsTab", "Analysis")
    );

    let mut newer = song();
    newer.candidate_status = CandidateChartStatus::CandidateAvailable(CandidateChartSummary {
        authored_phrase_count: 1,
        authored_note_count: 4,
        candidate_phrase_count: 1,
        candidate_note_count: 6,
        lyrics_changed: true,
        pitch_evidence_changed: false,
    });
    let queue = ("Queue".to_string(), with(UiDomain::Library, "AnalyzeSong", "h1"));
    let rows = analysis_card_rows(&newer, "summary".to_string(), queue);
    assert_eq!(rows.len(), 4);
    assert_eq!(rows[3].label, "Candidate analysis");
    assert_eq!(
        rows[3].action.as_ref().unwrap().1,
        with(UiDomain::Analysis, "RequestReplaceAuthoredChart", "h1")
    );

    newer.usdx_transcript = true;
    let queue = ("Queue".to_string(), with(UiDomain::Library, "AnalyzeSong", "h1"));
    assert_eq!(analysis_card_rows(&newer, "s".to_string(), queue).len(), 3);
}

#[test]
fn imported_lyrics_cannot_be_edited_here() {
    let rows = lyrics_card_rows(&song());
    assert_eq!(labels(&rows), vec!["Lyrics", "Language"]);
    assert_eq!(
        rows[1].description,
        "Current analysis language: ja. Choose whether to realign current lyrics or transcribe again."
    );
    let mut imported = song();
    imported.usdx_transcript = true;
    let rows = lyrics_card_rows(&imported);
    assert_eq!(labels(&rows), vec!["Lyrics"]);
    assert!(rows[0].action.is_none());
    let mut unknown = song();
    unknown.language = None;
    assert!(lyrics_card_rows(&unknown)[1].description.contains("language: automatic."));
}

#[test]
fn audio_controls_need_a_native_analysis() {
    let mut overridden = song();
    overridden.override_key = Some("D major".to_string());
    match audio_card(&overridden) {
        AudioCard::Controls { key, speed } => {
            assert_eq!(key.description, "Detected key: C major");
            assert_eq!(key.value, "D major");
            assert_eq!(key.down.0.payload, vec!["h1".to_string(), "-1".to_string()]);
            assert_eq!(key.up.0.variant, "ShiftSongKey");
            assert_eq!(speed.value, "1.0×");
            assert_eq!(speed.up.0.variant, "ShiftSongTempo");
        }
        AudioCard::Unavailable(_) => panic!("controls expected"),
    }
    let mut keyless = song();
    keyless.key = None;
    match audio_card(&keyless) {
        AudioCard::Controls { key, .. } => {
            assert_eq!(key.description, "Analyze again to detect the key.");
            assert_eq!(key.value, "—");
        }
        AudioCard::Unavailable(_) => panic!("controls expected"),
    }
    let mut fresh = song();
    fresh.is_analyzed = false;
    match audio_card(&fresh) {
        AudioCard::Unavailable(row) => assert_eq!(row.label, "Key transpose & playback speed"),
        AudioCard::Controls { .. } => panic!("no controls expected"),
    }
}

#[test]
fn authoring_card_follows_chart_readiness() {
    let rows = authoring_card_rows(&song());
    assert_eq!(labels(&rows), vec!["Chart editor", "Authored chart", "UTZ project", "UltraStar chart"]);
    let mut blocked = song();
    blocked.editor_ready = false;
    blocked.editor_blocked_reason = Some("Audio is missing.".to_string());
    blocked.authoring_ready = false;
    blocked.candidate_status = CandidateChartStatus::NotAuthoredYet;
    let rows = authoring_card_rows(&blocked);
    assert_eq!(labels(&rows), vec!["Chart editor", "Export"]);
    assert_eq!(rows[0].description, "Audio is missing.");
    assert!(rows[1].action.is_none());
    blocked.editor_blocked_reason = None;
    assert_eq!(
        authoring_card_rows(&blocked)[0].description,
        "A complete chart and playable audio are required before editing."
    );
}

#[test]
fn generated_data_can_be_deleted_after_native_analysis() {
    let row = history_card_row(&song());
    assert_eq!(row.action.unwrap().1, with(UiDomain::Analysis, "RequestDeleteSongCache", "h1"));
    let mut imported = song();
    imported.usdx_transcript = true;
    assert!(history_card_row(&imported).action.is_none());
}

fn hero_song() -> SongHeroFacts {
    SongHeroFacts {
        file_hash: "h1".to_string(),
        artist: "Artist".to_string(),
        album: "Album".to_string(),
        is_analyzed: true,
        authoring_ready: false,
        editor_ready: true,
        transcript_source: Some("Asr".to_string()),
        extension: Some("flac".to_string()),
        is_video: false,
        key: Some("A minor".to_string()),
        override_key: None,
        playback_hash: Some("h1".to_string()),
        playback_loaded: true,
        playback_playing: true,
    }
}

#[test]
fn hero_summarises_the_song_and_its_next_step() {
    let hero = song_hero(&hero_song(), "Open editor");
    assert_eq!(hero.analysis_label, "Analysis complete");
    assert_eq!(hero.analysis_color, ThemeColor::PitchContour);
    assert_eq!(hero.chart_label, "Candidate ready");
    assert_eq!(hero.chart_color, ThemeColor::Primary);
    assert_eq!(hero.subtitle, "Artist · Album");
    assert_eq!(hero.media, "Audio · FLAC");
    assert_eq!(hero.transcript, "Asr");
    assert_eq!(hero.key, "A minor");
    assert_eq!(hero.play_label, "Pause");
    assert_eq!(hero.play_action, UiAction(UiCommand::new(UiDomain::Library, "ToggleLibraryPlayback")));
    assert_eq!(hero.next_title, "Review the candidate chart");
    assert_eq!(hero.next_icon, StepIcon::Scissors);
    assert_eq!(hero.workflow_action, with(UiDomain::Analysis, "OpenProcessingStudio", "h1"));
}

#[test]
fn hero_for_a_fresh_song_elsewhere_in_the_player() {
    let mut song = hero_song();
    song.album = String::new();
    song.is_analyzed = false;
    song.editor_ready = false;
    song.transcript_source = None;
    song.extension = None;
    song.is_video = true;
    song.key = None;
    song.playback_hash = Some("other".to_string());
    let hero = song_hero(&song, "Analyze song");
    assert_eq!(hero.subtitle, "Artist");
    assert_eq!(hero.media, "Video · MEDIA");
    assert_eq!(hero.transcript, "Not available");
    assert_eq!(hero.transcript_color, ThemeColor::MutedForeground);
    assert_eq!(hero.key, "Unknown key");
    assert_eq!(hero.play_label, "Play");
    assert_eq!(hero.play_action, with(UiDomain::Library, "PlayLibrarySong", "h1"));
    assert_eq!(hero.chart_label, "Chart incomplete");
    assert_eq!(hero.next_title, "Analyze this song");
    let running = song_hero(&song, "View processing queue");
    assert_eq!(running.next_title, "Analysis is running");
}

#[test]
fn an_empty_workspace_leads_back_to_the_library() {
    let (title, _, (caption, action)) = no_song_prompt();
    assert_eq!(title, "Choose a song to open its workspace");
    assert_eq!(caption, "Browse library");
    assert_eq!(action, UiAction(UiCommand::new(UiDomain::App, "Home")));
}

#[test]
fn song_settings_panel_offers_clear_only_for_a_set_video() {
    let mut facts = SongSettingsFacts {
        title: "Song".to_string(),
        artist: "Artist".to_string(),
        key: None,
        background_video_set: false,
        background_video_name: None,
    };
    let panel = song_settings_panel(&facts);
    assert_eq!(panel.heading, "Song settings · Song");
    assert_eq!(
        panel.key_line,
        "Detected key: Unknown — use the Key transpose control on this song to change it."
    );
    assert_eq!(panel.video_label, "None set");
    assert_eq!(panel.video_actions.len(), 1);
    facts.key = Some("E minor".to_string());
    facts.background_video_set = true;
    facts.background_video_name = Some("clip.mp4".to_string());
    let panel = song_settings_panel(&facts);
    assert!(panel.key_line.starts_with("Detected key: E minor"));
    assert_eq!(panel.video_label, "clip.mp4");
    let captions: Vec<&str> = panel.video_actions.iter().map(|(c, _)| c.as_str()).collect();
    assert_eq!(captions, vec!["Choose…", "Clear"]);
    assert_eq!(panel.video_actions[1].1, UiAction(UiCommand::new(UiDomain::Editor, "ClearBackgroundVideo")));
}

#[test]
fn cache_deletion_names_the_song() {
    let dialog = cache_delete_confirmation(Some("Song"));
    assert_eq!(dialog.heading, "Delete generated song data?");
    assert!(dialog.body.contains("for “Song” will be removed"));
    assert_eq!(dialog.confirm.unwrap().0, "Delete generated data");
    assert!(cache_delete_confirmation(None).body.contains("for “this song”"));
}

#[test]
fn a_pinned_chart_cannot_be_deleted_or_replaced() {
    let deleting = chart_delete_confirmation(Some("Song"), true);
    assert!(deleting.confirm.is_none());
    assert!(deleting.body.starts_with("This authored chart is pinned."));
    let open = chart_delete_confirmation(Some("Song"), false);
    assert!(open.body.starts_with("Delete the authored chart for Song?"));
    assert_eq!(open.confirm.unwrap().1, UiAction(UiCommand::new(UiDomain::Analysis, "ConfirmDeleteAuthoredChart")));
    let replacing = chart_replace_confirmation(Some("Song"), true, &CandidateChartStatus::UpToDate);
    assert_eq!(replacing.heading, "Authored chart is pinned");
    assert!(replacing.confirm.is_none());
    assert_eq!(replacing.cancel.0, "Keep my chart");
}

#[test]
fn replacement_compares_candidate_and_saved_chart() {
    let summary = CandidateChartSummary {
        authored_phrase_count: 2,
        authored_note_count: 10,
        candidate_phrase_count: 3,
        candidate_note_count: 14,
        lyrics_changed: true,
        pitch_evidence_changed: true,
    };
    let dialog = chart_replace_confirmation(None, false, &CandidateChartStatus::CandidateAvailable(summary));
    assert_eq!(dialog.heading, "Replace authored chart with the candidate?");
    assert_eq!(
        dialog.body,
        "The current candidate analysis for “this song” has 14 note(s) across 3 phrase(s), versus 10 note(s) across 2 phrase(s) in your saved chart. Updated: lyrics timing & pitch evidence. Replacing discards your edits; the next time you open the editor it rebuilds from this candidate instead."
    );
    let none = chart_replace_confirmation(Some("Song"), false, &CandidateChartStatus::NotAuthoredYet);
    assert!(none.body.starts_with("No candidate analysis is currently available for “Song”."));
    assert_eq!(none.confirm.unwrap().0, "Replace with candidate");
}
