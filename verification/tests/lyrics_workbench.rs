use uta_studio_desktop::lyrics_workbench::{transcript_list, transcript_list_plan, transcript_word_counts, JsonValue, TRANSCRIPT_SEGMENT_LIMIT, TRANSCRIPT_WORD_LIMIT};
use uta_studio_desktop::lyrics_workbench::{
    candidate_actions, candidate_detail, candidate_page, impact_preview, lyrics_text, LoadedCandidate,
    LyricsFile, LyricsSources, mode_toggle_label, search_button_label, workbench_description,
    workbench_title, workbench_unavailable, CandidatePage, LyricsInputMode,
};
use uta_studio_desktop::ui_api::{UiAction, UiCommand, UiDomain};

#[test]
fn titles_and_toggles_follow_the_input_mode() {
    assert_eq!(workbench_title(LyricsInputMode::Plain), "Plain lyrics");
    assert_eq!(workbench_title(LyricsInputMode::TimedLrc), "Timed LRC");
    assert_eq!(workbench_title(LyricsInputMode::StructuredTimedTranscript), "TimedTranscript JSON");
    assert!(workbench_description(LyricsInputMode::StructuredTimedTranscript).starts_with("Edit the lossless"));
    assert!(workbench_description(LyricsInputMode::Plain).starts_with("Search four lyric sources"));
    assert_eq!(mode_toggle_label(LyricsInputMode::TimedLrc), "Use plain editor");
    assert_eq!(mode_toggle_label(LyricsInputMode::Plain), "Use timed LRC editor");
    assert_eq!(search_button_label(true), "Searching…");
    assert_eq!(search_button_label(false), "Search all sources");
}

#[test]
fn no_results_and_no_search_shows_nothing() {
    assert_eq!(candidate_page(0, 0, 4, false), None);
    assert_eq!(
        candidate_page(0, 0, 4, true),
        Some(CandidatePage {
            header: "SEARCH RESULTS · loading",
            start: 0,
            end: 0,
            total_pages: 0,
            position: None,
        })
    );
}

#[test]
fn results_are_paged_with_a_partial_last_page() {
    let first = candidate_page(0, 10, 4, false).unwrap();
    assert_eq!((first.start, first.end, first.total_pages), (0, 4, 3));
    assert_eq!(first.header, "SEARCH RESULTS");
    assert_eq!(first.position, Some("1 / 3".to_string()));
    let last = candidate_page(2, 10, 4, false).unwrap();
    assert_eq!((last.start, last.end), (8, 10));
    assert_eq!(last.position, Some("3 / 3".to_string()));
    let single = candidate_page(0, 3, 4, false).unwrap();
    assert_eq!((single.start, single.end, single.total_pages), (0, 3, 1));
    assert_eq!(single.position, None);
    let beyond = candidate_page(5, 10, 4, false).unwrap();
    assert!(beyond.start >= beyond.end);
}

#[test]
fn every_result_lands_on_exactly_one_page() {
    let count = 11;
    let slots = 4;
    let pages = candidate_page(0, count, slots, false).unwrap().total_pages;
    let mut seen = vec![0; count];
    for page in 0..pages {
        let shown = candidate_page(page, count, slots, false).unwrap();
        assert!(shown.start < shown.end);
        for i in shown.start..shown.end {
            seen[i] += 1;
        }
    }
    assert!(seen.iter().all(|n| *n == 1));
}

#[test]
fn impact_preview_mentions_regeneration_only_when_needed() {
    assert_eq!(
        impact_preview(3, false),
        "Impact preview · 3 downstream node(s) · Authored Chart preserved"
    );
    assert_eq!(
        impact_preview(0, true),
        "Impact preview · 0 downstream node(s) · Authored Chart preserved · exports may need regeneration"
    );
}

#[test]
fn an_unavailable_workbench_offers_the_way_back() {
    let (title, _, (caption, action)) = workbench_unavailable();
    assert_eq!(title, "Lyrics Workbench unavailable");
    assert_eq!(caption, "Back");
    assert_eq!(action, UiAction(UiCommand::new(UiDomain::App, "Back")));
}

#[test]
fn unloaded_results_offer_to_load() {
    let actions = candidate_actions(2, None, Some(2));
    assert_eq!(actions.len(), 1);
    assert_eq!(actions[0].0, "Loading…");
    assert_eq!(actions[0].1, UiAction(UiCommand::with_value(UiDomain::Editor, "LoadLyricsCandidate", "2")));
    assert_eq!(candidate_actions(2, None, Some(3))[0].0, "Load");
}

#[test]
fn loaded_results_offer_each_available_form() {
    let all = LoadedCandidate {
        has_lines: false,
        has_synced_lyrics: true,
        has_translation: true,
        has_romanization: true,
    };
    let captions: Vec<String> = candidate_actions(0, Some(all), None).into_iter().map(|(c, _)| c).collect();
    assert_eq!(captions, vec!["Plain", "Timed LRC", "Translation", "Romanization"]);
    let actions = candidate_actions(4, Some(all), None);
    assert_eq!(actions[1].1 .0.payload, vec!["4".to_string(), "TimedLrc".to_string()]);
    let bare = LoadedCandidate {
        has_lines: false,
        has_synced_lyrics: false,
        has_translation: false,
        has_romanization: false,
    };
    assert!(candidate_actions(0, Some(bare), None).is_empty());
    let plain = LoadedCandidate { has_lines: true, ..bare };
    assert_eq!(candidate_actions(0, Some(plain), None).len(), 1);
}

#[test]
fn result_details_skip_a_blank_album() {
    assert_eq!(candidate_detail("Artist", "  ", "3:05", None), "Artist · 3:05 · metadata only");
    assert_eq!(
        candidate_detail("Artist", "Album", "3:05", Some(42)),
        "Artist · Album · 3:05 · 42 lines · loaded"
    );
}

fn sources(file: Option<LyricsFile>) -> LyricsSources {
    LyricsSources {
        file,
        transcript_lines: vec![(1234, "first".to_string()), (6150, "second".to_string())],
        phrases: vec![(" Hello ".to_string(), 500), ("   ".to_string(), 900), ("World".to_string(), 6000)],
    }
}

#[test]
fn the_saved_file_wins_when_it_suits_the_mode() {
    let file = LyricsFile {
        lines: vec!["one".to_string(), "two".to_string()],
        timed_lrc: Some("[00:01.00]one".to_string()),
    };
    let saved = sources(Some(file));
    assert_eq!(lyrics_text(LyricsInputMode::TimedLrc, &saved), "[00:01.00]one");
    assert_eq!(lyrics_text(LyricsInputMode::Plain, &saved), "one\ntwo");
}

#[test]
fn timed_text_falls_back_to_the_transcript_then_the_chart() {
    let untimed = LyricsFile { lines: vec!["one".to_string()], timed_lrc: None };
    let with_transcript = sources(Some(untimed));
    assert_eq!(
        lyrics_text(LyricsInputMode::TimedLrc, &with_transcript),
        "[00:12.34]first\n[01:01.50]second"
    );
    let mut chart_only = sources(None);
    chart_only.transcript_lines.clear();
    assert_eq!(lyrics_text(LyricsInputMode::TimedLrc, &chart_only), "[00:05.00]Hello\n[01:00.00]World");
    assert_eq!(lyrics_text(LyricsInputMode::Plain, &chart_only), "Hello\nWorld");
    assert_eq!(lyrics_text(LyricsInputMode::StructuredTimedTranscript, &sources(None)), "Hello\nWorld");
    let empty = LyricsSources { file: None, transcript_lines: Vec::new(), phrases: Vec::new() };
    assert_eq!(lyrics_text(LyricsInputMode::TimedLrc, &empty), "");
}

#[test]
fn short_transcripts_are_listed_whole() {
    let plan = transcript_list_plan(&vec![2, 3, 0]);
    assert_eq!(plan.segment_words, vec![2, 3, 0]);
    assert!(!plan.bounded_notice);
    let plan = transcript_list_plan(&Vec::new());
    assert!(plan.segment_words.is_empty());
    assert!(!plan.bounded_notice);
}

#[test]
fn the_word_limit_spans_segments() {
    assert_eq!(TRANSCRIPT_WORD_LIMIT, 200);
    let plan = transcript_list_plan(&vec![3, 250, 5]);
    assert_eq!(plan.segment_words, vec![3, 197, 0]);
    assert!(plan.bounded_notice);
    let plan = transcript_list_plan(&vec![100, 100]);
    assert_eq!(plan.segment_words, vec![100, 100]);
    assert!(plan.bounded_notice);
}

#[test]
fn the_segment_limit_cuts_long_transcripts() {
    assert_eq!(TRANSCRIPT_SEGMENT_LIMIT, 50);
    let plan = transcript_list_plan(&vec![1; 60]);
    assert_eq!(plan.segment_words, vec![1; 50]);
    assert!(plan.bounded_notice);
    let plan = transcript_list_plan(&vec![1; 50]);
    assert_eq!(plan.segment_words.len(), 50);
    assert!(!plan.bounded_notice);
}

fn text(s: &str) -> JsonValue {
    JsonValue::Text(s.to_string())
}

fn object(members: Vec<(&str, JsonValue)>) -> JsonValue {
    JsonValue::Object(members.into_iter().map(|(k, v)| (k.to_string(), v)).collect())
}

#[test]
fn a_transcript_is_listed_from_its_document() {
    let document = object(vec![
        ("language", text("ja")),
        (
            "segments",
            JsonValue::Array(vec![
                object(vec![
                    ("text", text("a b")),
                    ("words", JsonValue::Array(vec![object(vec![("word", text("a"))]), object(vec![("word", text("b"))])])),
                ]),
                object(vec![("text", text("c")), ("start", JsonValue::Number)]),
                object(vec![("words", JsonValue::Null)]),
                JsonValue::Bool(true),
            ]),
        ),
    ]);
    assert_eq!(transcript_word_counts(&document), Some(vec![2, 0, 0, 0]));
    let plan = transcript_list(&document).expect("a transcript with segments");
    assert_eq!(plan.segment_words, vec![2, 0, 0, 0]);
    assert!(!plan.bounded_notice);
}

#[test]
fn a_document_that_is_not_a_transcript_has_no_list() {
    assert!(transcript_list(&text("[00:01.00] plain lrc")).is_none());
    assert!(transcript_list(&object(vec![("language", text("ja"))])).is_none());
    assert!(transcript_list(&object(vec![("segments", object(vec![]))])).is_none());
    assert!(transcript_list(&JsonValue::Array(vec![])).is_none());
}
