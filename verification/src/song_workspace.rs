//! The song workspace: which rows each section card of a song shows, and
//! what their buttons do.
use vstd::prelude::*;

use crate::settings::ThemeColor;
use crate::song_detail::{CandidateChartStatus, CandidateChartSummary};
use crate::text::{
    ascii_uppercase, chars_of, decimal, join, joined, owned, push_decimal, push_str, str_equal,
    string_of, to_ascii_uppercase,
};
use crate::ui_api::{action_view, button, button_with_value, ActionView, UiAction, UiCommand, UiDomain};

verus! {

/// A row of a section card: its label, its description and at most one
/// button.
pub struct DetailRow {
    pub label: String,
    pub description: String,
    pub action: Option<(String, UiAction)>,
}

pub type DetailRowView = (Seq<char>, Seq<char>, Option<ActionView>);

impl View for DetailRow {
    type V = DetailRowView;

    open spec fn view(&self) -> DetailRowView {
        (
            self.label@,
            self.description@,
            match self.action {
                Some(a) => Some(action_view(a)),
                None => None,
            },
        )
    }
}

pub open spec fn detail_views(rows: Seq<DetailRow>) -> Seq<DetailRowView> {
    rows.map_values(|r: DetailRow| r@)
}

fn detail_row(label: &str, description: String, action: Option<(String, UiAction)>) -> (row: DetailRow)
    ensures
        row@ == (
            label@,
            description@,
            match action {
                Some(a) => Some(action_view(a)),
                None => None,
            },
        ),
{
    DetailRow { label: owned(label), description, action }
}

fn push_detail(rows: &mut Vec<DetailRow>, row: DetailRow)
    ensures
        detail_views(final(rows)@) == detail_views(old(rows)@).push(row@),
{
    rows.push(row);
    assert(detail_views(rows@) =~= detail_views(old(rows)@).push(row@));
}

/// What the section cards read about a song.
pub struct SongWorkspaceFacts {
    pub file_hash: String,
    pub is_analyzed: bool,
    /// The lyrics came from an imported UltraStar file.
    pub usdx_transcript: bool,
    pub candidate_status: CandidateChartStatus,
    pub language: Option<String>,
    pub key: Option<String>,
    pub override_key: Option<String>,
    /// The export-speed multiplier, already worded.
    pub tempo_label: String,
    pub editor_ready: bool,
    pub editor_blocked_reason: Option<String>,
    pub authoring_ready: bool,
}

impl SongWorkspaceFacts {
    /// The song's own analysis result: analysed, and not an UltraStar
    /// import.
    pub open spec fn analyzed_and_native(self) -> bool {
        self.is_analyzed && !self.usdx_transcript
    }

    pub open spec fn hash(self) -> Seq<char> {
        self.file_hash@
    }
}

// ---------------------------------------------------------------------------
// Overview
// ---------------------------------------------------------------------------

/// The overview rows the Overview card keeps.
pub open spec fn is_overview_card_label(label: Seq<char>) -> bool {
    label == "Language"@ || label == "Last successful run"@ || label == "Candidate availability"@
        || label == "Chart issues"@ || label == "Detected key"@ || label == "Musical BPM"@ || label
        == "Extra descriptors"@ || label == "Vocal / instrumental stems"@ || label
        == "Pitch evidence"@
}

pub open spec fn overview_card_rows_of(rows: Seq<(&'static str, Seq<char>)>) -> Seq<
    (&'static str, Seq<char>),
>
    decreases rows.len(),
{
    if rows.len() == 0 {
        Seq::empty()
    } else {
        let rest = overview_card_rows_of(rows.drop_last());
        if is_overview_card_label(rows.last().0@) {
            rest.push(rows.last())
        } else {
            rest
        }
    }
}

fn overview_card_label(label: &str) -> (keep: bool)
    ensures
        keep == is_overview_card_label(label@),
{
    crate::text::str_equal(label, "Language") || crate::text::str_equal(
        label,
        "Last successful run",
    ) || crate::text::str_equal(label, "Candidate availability") || crate::text::str_equal(
        label,
        "Chart issues",
    ) || crate::text::str_equal(label, "Detected key") || crate::text::str_equal(
        label,
        "Musical BPM",
    ) || crate::text::str_equal(label, "Extra descriptors") || crate::text::str_equal(
        label,
        "Vocal / instrumental stems",
    ) || crate::text::str_equal(label, "Pitch evidence")
}

/// The Overview card: its Settings button and the overview rows it keeps,
/// in order.
pub fn overview_card(file_hash: &str, rows: &Vec<(&'static str, String)>) -> (card: (
    (String, UiAction),
    Vec<(&'static str, String)>,
))
    ensures
        action_view(card.0) == button(
            "Settings"@,
            UiDomain::Editor,
            "OpenSongSettings"@,
            seq![file_hash@],
        ),
        card.1@.map_values(|r: (&'static str, String)| (r.0, r.1@)) == overview_card_rows_of(
            rows@.map_values(|r: (&'static str, String)| (r.0, r.1@)),
        ),
{
    let ghost views = rows@.map_values(|r: (&'static str, String)| (r.0, r.1@));
    let mut kept: Vec<(&'static str, String)> = Vec::new();
    let mut i: usize = 0;
    while i < rows.len()
        invariant
            i <= rows.len(),
            views == rows@.map_values(|r: (&'static str, String)| (r.0, r.1@)),
            kept@.map_values(|r: (&'static str, String)| (r.0, r.1@)) == overview_card_rows_of(
                views.take(i as int),
            ),
        decreases rows.len() - i,
    {
        proof {
            assert(views.take(i + 1).drop_last() =~= views.take(i as int));
            assert(views.take(i + 1).last() == views[i as int]);
        }
        let label = rows[i].0;
        if overview_card_label(label) {
            let ghost before = kept@;
            kept.push((label, owned(rows[i].1.as_str())));
            assert(kept@.map_values(|r: (&'static str, String)| (r.0, r.1@)) =~= before.map_values(
                |r: (&'static str, String)| (r.0, r.1@),
            ).push(views[i as int]));
        }
        i = i + 1;
    }
    assert(views.take(rows.len() as int) =~= views);
    (button_with_value("Settings", UiDomain::Editor, "OpenSongSettings", file_hash), kept)
}

// ---------------------------------------------------------------------------
// Analysis
// ---------------------------------------------------------------------------

pub open spec fn spec_analysis_heading_action(song: SongWorkspaceFacts) -> Option<ActionView> {
    if song.is_analyzed {
        None
    } else {
        Some(button("Analyze now"@, UiDomain::Analysis, "AnalyzeNow"@, seq![song.hash()]))
    }
}

/// The Analysis card's heading button: a song that is not analysed offers
/// to analyse it now.
pub fn analysis_heading_action(song: &SongWorkspaceFacts) -> (action: Option<(String, UiAction)>)
    ensures
        match action {
            Some(a) => Some(action_view(a)),
            None => None,
        } == spec_analysis_heading_action(*song),
{
    if song.is_analyzed {
        None
    } else {
        Some(button_with_value("Analyze now", UiDomain::Analysis, "AnalyzeNow", song.file_hash.as_str()))
    }
}

pub open spec fn spec_analysis_card_rows(
    song: SongWorkspaceFacts,
    profile_summary: Seq<char>,
    queue_action: ActionView,
) -> Seq<DetailRowView> {
    let rows = seq![
        (
            "Workflow"@,
            if song.is_analyzed {
                "Analyzed. Open the node-graph workflow to inspect or customize how this song's stages are configured."@
            } else {
                "Not analyzed yet. Open the node-graph workflow to customize stages before running, instead of the one-click default."@
            },
            Some(button("Open workflow"@, UiDomain::Analysis, "OpenProcessingStudio"@, seq![song.hash()])),
        ),
        (
            "Processing queue"@,
            "Add this song to the processing queue using its configured analysis workflow."@,
            Some(queue_action),
        ),
        (
            "Analysis profile"@,
            profile_summary,
            Some(button("Environment settings"@, UiDomain::Settings, "SettingsTab"@, seq!["Analysis"@])),
        ),
    ];
    if song.analyzed_and_native() && (song.candidate_status matches CandidateChartStatus::CandidateAvailable(_)) {
        rows.push(
            (
                "Candidate analysis"@,
                "A newer analysis result differs from your saved chart. Compare and choose whether to replace it."@,
                Some(button("Compare & replace…"@, UiDomain::Analysis, "RequestReplaceAuthoredChart"@, seq![song.hash()])),
            ),
        )
    } else {
        rows
    }
}

/// The action rows of the Analysis card: the workflow, the processing
/// queue (with the song's analysis action), the analysis profile (with its
/// summary), and, when a newer candidate differs from the saved chart of a
/// song analysed here, the offer to compare and replace it.
pub fn analysis_card_rows(
    song: &SongWorkspaceFacts,
    profile_summary: String,
    queue_action: (String, UiAction),
) -> (rows: Vec<DetailRow>)
    ensures
        detail_views(rows@) == spec_analysis_card_rows(*song, profile_summary@, action_view(queue_action)),
{
    let hash = song.file_hash.as_str();
    let mut rows: Vec<DetailRow> = Vec::new();
    let workflow = if song.is_analyzed {
        "Analyzed. Open the node-graph workflow to inspect or customize how this song's stages are configured."
    } else {
        "Not analyzed yet. Open the node-graph workflow to customize stages before running, instead of the one-click default."
    };
    push_detail(
        &mut rows,
        detail_row(
            "Workflow",
            owned(workflow),
            Some(button_with_value("Open workflow", UiDomain::Analysis, "OpenProcessingStudio", hash)),
        ),
    );
    push_detail(
        &mut rows,
        detail_row(
            "Processing queue",
            owned("Add this song to the processing queue using its configured analysis workflow."),
            Some(queue_action),
        ),
    );
    push_detail(
        &mut rows,
        detail_row(
            "Analysis profile",
            profile_summary,
            Some(button_with_value("Environment settings", UiDomain::Settings, "SettingsTab", "Analysis")),
        ),
    );
    let candidate = match &song.candidate_status {
        CandidateChartStatus::CandidateAvailable(_) => true,
        _ => false,
    };
    if song.is_analyzed && !song.usdx_transcript && candidate {
        push_detail(
            &mut rows,
            detail_row(
                "Candidate analysis",
                owned(
                    "A newer analysis result differs from your saved chart. Compare and choose whether to replace it.",
                ),
                Some(
                    button_with_value(
                        "Compare & replace…",
                        UiDomain::Analysis,
                        "RequestReplaceAuthoredChart",
                        hash,
                    ),
                ),
            ),
        );
    }
    rows
}

// ---------------------------------------------------------------------------
// Lyrics & timing
// ---------------------------------------------------------------------------

pub open spec fn spec_lyrics_card_rows(song: SongWorkspaceFacts) -> Seq<DetailRowView> {
    let native = !song.usdx_transcript;
    let lyrics = (
        "Lyrics"@,
        "Edit plain lyrics or provide timed LRC without replacing source media or starting analysis."@,
        if native {
            Some(button("Edit lyrics…"@, UiDomain::Editor, "OpenLyricsEditor"@, seq![song.hash()]))
        } else {
            None
        },
    );
    if native {
        seq![
            lyrics,
            (
                "Language"@,
                "Current analysis language: "@ + match song.language {
                    Some(l) => l@,
                    None => "automatic"@,
                } + ". Choose whether to realign current lyrics or transcribe again."@,
                Some(button("Change language…"@, UiDomain::Editor, "OpenLanguageEditor"@, seq![song.hash()])),
            ),
        ]
    } else {
        seq![lyrics]
    }
}

/// The Lyrics & timing card: lyrics and language can be edited unless the
/// lyrics came from an UltraStar import.
pub fn lyrics_card_rows(song: &SongWorkspaceFacts) -> (rows: Vec<DetailRow>)
    ensures
        detail_views(rows@) == spec_lyrics_card_rows(*song),
{
    let hash = song.file_hash.as_str();
    let native = !song.usdx_transcript;
    let mut rows: Vec<DetailRow> = Vec::new();
    let edit = if native {
        Some(button_with_value("Edit lyrics…", UiDomain::Editor, "OpenLyricsEditor", hash))
    } else {
        None
    };
    push_detail(
        &mut rows,
        detail_row(
            "Lyrics",
            owned(
                "Edit plain lyrics or provide timed LRC without replacing source media or starting analysis.",
            ),
            edit,
        ),
    );
    if native {
        let mut description = owned("Current analysis language: ");
        match &song.language {
            Some(l) => push_str(&mut description, l.as_str()),
            None => push_str(&mut description, "automatic"),
        }
        push_str(&mut description, ". Choose whether to realign current lyrics or transcribe again.");
        push_detail(
            &mut rows,
            detail_row(
                "Language",
                description,
                Some(button_with_value("Change language…", UiDomain::Editor, "OpenLanguageEditor", hash)),
            ),
        );
    }
    assert(detail_views(rows@) =~= spec_lyrics_card_rows(*song));
    rows
}


// ---------------------------------------------------------------------------
// Audio & pitch
// ---------------------------------------------------------------------------

/// A row with a value between a step-down and a step-up button.
pub struct ShiftRow {
    pub label: &'static str,
    pub description: String,
    pub value: String,
    pub down: UiAction,
    pub up: UiAction,
}

pub open spec fn command_view(a: UiAction) -> (UiDomain, Seq<char>, Seq<Seq<char>>) {
    (a.0.domain, a.0.variant@, a.0.payload@.map_values(|s: String| s@))
}

/// The Audio & pitch card: key transpose and export speed for a song
/// analysed here, else the note that the controls need such an analysis.
pub enum AudioCard {
    Controls { key: ShiftRow, speed: ShiftRow },
    Unavailable(DetailRow),
}

pub open spec fn shift_command(variant: Seq<char>, hash: Seq<char>, step: Seq<char>) -> (
    UiDomain,
    Seq<char>,
    Seq<Seq<char>>,
) {
    (UiDomain::Editor, variant, seq![hash, step])
}

fn shift_action(variant: &str, hash: &str, step: &str) -> (action: UiAction)
    ensures
        command_view(action) == shift_command(variant@, hash@, step@),
{
    let mut payload: Vec<String> = Vec::new();
    payload.push(owned(hash));
    payload.push(owned(step));
    let action = UiAction(UiCommand { domain: UiDomain::Editor, variant: owned(variant), payload });
    assert(command_view(action).2 =~= seq![hash@, step@]);
    action
}

pub open spec fn shift_row_matches(
    row: ShiftRow,
    label: Seq<char>,
    description: Seq<char>,
    value: Seq<char>,
    variant: Seq<char>,
    hash: Seq<char>,
) -> bool {
    &&& row.label@ == label
    &&& row.description@ == description
    &&& row.value@ == value
    &&& command_view(row.down) == shift_command(variant, hash, "-1"@)
    &&& command_view(row.up) == shift_command(variant, hash, "1"@)
}

pub open spec fn spec_key_description(key: Option<String>) -> Seq<char> {
    match key {
        Some(k) => "Detected key: "@ + k@,
        None => "Analyze again to detect the key."@,
    }
}

pub open spec fn spec_key_value(song: SongWorkspaceFacts) -> Seq<char> {
    match song.override_key {
        Some(k) => k@,
        None => match song.key {
            Some(k) => k@,
            None => "—"@,
        },
    }
}

pub fn audio_card(song: &SongWorkspaceFacts) -> (card: AudioCard)
    ensures
        song.analyzed_and_native() ==> (card matches AudioCard::Controls { key, speed } && shift_row_matches(
            key,
            "Key transpose"@,
            spec_key_description(song.key),
            spec_key_value(*song),
            "ShiftSongKey"@,
            song.hash(),
        ) && shift_row_matches(
            speed,
            "Playback / export speed"@,
            "Create an export-speed variant in 0.1× steps."@,
            song.tempo_label@,
            "ShiftSongTempo"@,
            song.hash(),
        )),
        !song.analyzed_and_native() ==> (card matches AudioCard::Unavailable(row) && row@ == (
            "Key transpose & playback speed"@,
            "Controls become available after compatible analysis."@,
            None::<ActionView>,
        )),
{
    let hash = song.file_hash.as_str();
    if song.is_analyzed && !song.usdx_transcript {
        let description = match &song.key {
            Some(k) => {
                let mut d = owned("Detected key: ");
                push_str(&mut d, k.as_str());
                d
            },
            None => owned("Analyze again to detect the key."),
        };
        let value = match &song.override_key {
            Some(k) => owned(k.as_str()),
            None => match &song.key {
                Some(k) => owned(k.as_str()),
                None => owned("—"),
            },
        };
        let key = ShiftRow {
            label: "Key transpose",
            description,
            value,
            down: shift_action("ShiftSongKey", hash, "-1"),
            up: shift_action("ShiftSongKey", hash, "1"),
        };
        let speed = ShiftRow {
            label: "Playback / export speed",
            description: owned("Create an export-speed variant in 0.1× steps."),
            value: owned(song.tempo_label.as_str()),
            down: shift_action("ShiftSongTempo", hash, "-1"),
            up: shift_action("ShiftSongTempo", hash, "1"),
        };
        AudioCard::Controls { key, speed }
    } else {
        AudioCard::Unavailable(
            detail_row(
                "Key transpose & playback speed",
                owned("Controls become available after compatible analysis."),
                None,
            ),
        )
    }
}

// ---------------------------------------------------------------------------
// Authoring & export, artifacts & history
// ---------------------------------------------------------------------------

pub open spec fn spec_authoring_card_rows(song: SongWorkspaceFacts) -> Seq<DetailRowView> {
    let editor = (
        "Chart editor"@,
        if song.editor_ready {
            "Open the active authored or candidate chart for detailed note and lyric editing."@
        } else {
            match song.editor_blocked_reason {
                Some(r) => r@,
                None => "A complete chart and playable audio are required before editing."@,
            }
        },
        Some(button("Open editor"@, UiDomain::Library, "OpenEditor"@, seq![song.hash()])),
    );
    let authored = if (song.candidate_status matches CandidateChartStatus::NotAuthoredYet) {
        Seq::empty()
    } else {
        seq![
            (
                "Authored chart"@,
                "Delete only the authored chart. Source media, CandidateChart and analysis evidence are retained."@,
                Some(button("Delete chart…"@, UiDomain::Analysis, "RequestDeleteAuthoredChart"@, seq![song.hash()])),
            ),
        ]
    };
    let export = if song.authoring_ready {
        seq![
            (
                "UTZ project"@,
                "Export the full editable project file for Uta! Studio."@,
                Some(button("Export UTZ"@, UiDomain::Library, "ExportUtz"@, seq![song.hash()])),
            ),
            (
                "UltraStar chart"@,
                "Export a chart compatible with UltraStar-format karaoke games."@,
                Some(button("Export UltraStar"@, UiDomain::Library, "ExportUltraStar"@, seq![song.hash()])),
            ),
        ]
    } else {
        seq![
            (
                "Export"@,
                "Export becomes available once this song's chart is ready for authoring."@,
                None,
            ),
        ]
    };
    seq![editor] + authored + export
}

/// The Authoring & export card: the chart editor (or why it is blocked),
/// deleting an authored chart, and the exports once the chart is ready.
pub fn authoring_card_rows(song: &SongWorkspaceFacts) -> (rows: Vec<DetailRow>)
    ensures
        detail_views(rows@) == spec_authoring_card_rows(*song),
{
    let hash = song.file_hash.as_str();
    let mut rows: Vec<DetailRow> = Vec::new();
    let editor = if song.editor_ready {
        owned("Open the active authored or candidate chart for detailed note and lyric editing.")
    } else {
        match &song.editor_blocked_reason {
            Some(r) => owned(r.as_str()),
            None => owned("A complete chart and playable audio are required before editing."),
        }
    };
    push_detail(
        &mut rows,
        detail_row(
            "Chart editor",
            editor,
            Some(button_with_value("Open editor", UiDomain::Library, "OpenEditor", hash)),
        ),
    );
    let authored = match &song.candidate_status {
        CandidateChartStatus::NotAuthoredYet => false,
        _ => true,
    };
    if authored {
        push_detail(
            &mut rows,
            detail_row(
                "Authored chart",
                owned(
                    "Delete only the authored chart. Source media, CandidateChart and analysis evidence are retained.",
                ),
                Some(
                    button_with_value(
                        "Delete chart…",
                        UiDomain::Analysis,
                        "RequestDeleteAuthoredChart",
                        hash,
                    ),
                ),
            ),
        );
    }
    if song.authoring_ready {
        push_detail(
            &mut rows,
            detail_row(
                "UTZ project",
                owned("Export the full editable project file for Uta! Studio."),
                Some(button_with_value("Export UTZ", UiDomain::Library, "ExportUtz", hash)),
            ),
        );
        push_detail(
            &mut rows,
            detail_row(
                "UltraStar chart",
                owned("Export a chart compatible with UltraStar-format karaoke games."),
                Some(button_with_value("Export UltraStar", UiDomain::Library, "ExportUltraStar", hash)),
            ),
        );
    } else {
        push_detail(
            &mut rows,
            detail_row(
                "Export",
                owned("Export becomes available once this song's chart is ready for authoring."),
                None,
            ),
        );
    }
    assert(detail_views(rows@) =~= spec_authoring_card_rows(*song));
    rows
}

pub open spec fn spec_history_card_row(song: SongWorkspaceFacts) -> DetailRowView {
    if song.analyzed_and_native() {
        (
            "Generated song data"@,
            "Delete generated cache for this song. Source media is never changed."@,
            Some(button("Delete cache…"@, UiDomain::Analysis, "RequestDeleteSongCache"@, seq![song.hash()])),
        )
    } else {
        (
            "Generated song data"@,
            "Controls become available after compatible analysis."@,
            None,
        )
    }
}

/// The Artifacts & history card: deleting the song's generated data, for a
/// song analysed here.
pub fn history_card_row(song: &SongWorkspaceFacts) -> (row: DetailRow)
    ensures
        row@ == spec_history_card_row(*song),
{
    if song.is_analyzed && !song.usdx_transcript {
        detail_row(
            "Generated song data",
            owned("Delete generated cache for this song. Source media is never changed."),
            Some(
                button_with_value(
                    "Delete cache…",
                    UiDomain::Analysis,
                    "RequestDeleteSongCache",
                    song.file_hash.as_str(),
                ),
            ),
        )
    } else {
        detail_row(
            "Generated song data",
            owned("Controls become available after compatible analysis."),
            None,
        )
    }
}


// ---------------------------------------------------------------------------
// The hero header
// ---------------------------------------------------------------------------

/// What the hero header reads about a song and the library player.
pub struct SongHeroFacts {
    pub file_hash: String,
    pub artist: String,
    pub album: String,
    pub is_analyzed: bool,
    pub authoring_ready: bool,
    pub editor_ready: bool,
    /// Where the lyrics came from, already worded.
    pub transcript_source: Option<String>,
    pub extension: Option<String>,
    pub is_video: bool,
    pub key: Option<String>,
    pub override_key: Option<String>,
    /// The song the library player holds, if any.
    pub playback_hash: Option<String>,
    pub playback_loaded: bool,
    pub playback_playing: bool,
}

/// The icon of the next-step panel.
#[derive(Clone, Copy, Debug, PartialEq, Eq)]
pub enum StepIcon {
    Sparkles,
    Scissors,
}

/// What the hero header shows and offers.
pub struct SongHero {
    pub analysis_label: &'static str,
    pub analysis_color: ThemeColor,
    pub chart_label: &'static str,
    pub chart_color: ThemeColor,
    pub subtitle: String,
    pub media: String,
    pub transcript: String,
    pub transcript_color: ThemeColor,
    pub key: String,
    pub play_label: &'static str,
    pub play_action: UiAction,
    pub workflow_action: UiAction,
    pub settings_action: UiAction,
    pub next_title: &'static str,
    pub next_detail: &'static str,
    pub next_icon: StepIcon,
    pub next_color: ThemeColor,
}

impl SongHeroFacts {
    /// The library player holds this song, loaded.
    pub open spec fn is_current(self) -> bool {
        self.playback_hash matches Some(h) && h@ == self.file_hash@ && self.playback_loaded
    }
}

pub open spec fn spec_next_step(song: SongHeroFacts, analysis_running: bool) -> (
    &'static str,
    &'static str,
    StepIcon,
    ThemeColor,
) {
    if analysis_running {
        (
            "Analysis is running",
            "Open the processing queue to review the active stage, progress and runtime details.",
            StepIcon::Sparkles,
            ThemeColor::Primary,
        )
    } else if song.authoring_ready {
        (
            "Ready to edit & export",
            "The authored chart is ready for detailed editing, validation and project export.",
            StepIcon::Scissors,
            ThemeColor::PitchContour,
        )
    } else if song.editor_ready {
        (
            "Review the candidate chart",
            "Open the editor to inspect timing, lyrics and notes before publishing an authored chart.",
            StepIcon::Scissors,
            ThemeColor::Primary,
        )
    } else if song.is_analyzed {
        (
            "Continue the production path",
            "Analysis evidence exists, but the chart is not ready yet. Queue another run or inspect the workflow.",
            StepIcon::Sparkles,
            ThemeColor::EditorWarning,
        )
    } else {
        (
            "Analyze this song",
            "Generate lyrics, timing, pitch and candidate-chart evidence while keeping the source file unchanged.",
            StepIcon::Sparkles,
            ThemeColor::Primary,
        )
    }
}

/// The next step follows the song's progress, the furthest stage first:
/// while analysis runs it points to the queue; otherwise a ready authored
/// chart means editing and export (whatever the candidate), a candidate
/// chart means reviewing it, analysis evidence alone means continuing the
/// production path, and nothing yet means analyzing.
pub proof fn law_next_step_follows_the_furthest_stage(song: SongHeroFacts, analysis_running: bool)
    ensures
        ({
            let (title, detail, icon, color) = spec_next_step(song, analysis_running);
            &&& analysis_running ==> title == "Analysis is running" && icon == StepIcon::Sparkles
            &&& !analysis_running && song.authoring_ready ==> title == "Ready to edit & export"
                && icon == StepIcon::Scissors && color == ThemeColor::PitchContour
            &&& !analysis_running && !song.authoring_ready && song.editor_ready ==> title
                == "Review the candidate chart" && icon == StepIcon::Scissors
            &&& !analysis_running && !song.authoring_ready && !song.editor_ready
                && song.is_analyzed ==> title == "Continue the production path" && icon
                == StepIcon::Sparkles
            &&& !analysis_running && !song.authoring_ready && !song.editor_ready
                && !song.is_analyzed ==> title == "Analyze this song" && icon == StepIcon::Sparkles
            &&& (icon == StepIcon::Scissors) <==> (!analysis_running && (song.authoring_ready
                || song.editor_ready))
        }),
{
}

/// The hero header of a song, given the label of the song's primary
/// analysis action (the next step reads "Analysis is running" while that
/// action views the processing queue).
pub fn song_hero(song: &SongHeroFacts, primary_label: &str) -> (hero: SongHero)
    ensures
        hero.analysis_label == (if song.is_analyzed {
            "Analysis complete"
        } else {
            "Analysis needed"
        }),
        hero.analysis_color == (if song.is_analyzed {
            ThemeColor::PitchContour
        } else {
            ThemeColor::EditorWarning
        }),
        hero.chart_label == (if song.authoring_ready {
            "Chart ready"
        } else if song.editor_ready {
            "Candidate ready"
        } else {
            "Chart incomplete"
        }),
        hero.chart_color == (if song.authoring_ready || song.editor_ready {
            ThemeColor::Primary
        } else {
            ThemeColor::MutedForeground
        }),
        hero.subtitle@ == (if song.album@.len() == 0 {
            song.artist@
        } else {
            song.artist@ + " · "@ + song.album@
        }),
        hero.media@ == (if song.is_video {
            "Video"@
        } else {
            "Audio"@
        }) + " · "@ + ascii_uppercase(
            match song.extension {
                Some(e) => e@,
                None => "media"@,
            },
        ),
        hero.transcript@ == match song.transcript_source {
            Some(t) => t@,
            None => "Not available"@,
        },
        hero.transcript_color == (if song.transcript_source is Some {
            ThemeColor::PitchContour
        } else {
            ThemeColor::MutedForeground
        }),
        hero.key@ == match song.override_key {
            Some(k) => k@,
            None => match song.key {
                Some(k) => k@,
                None => "Unknown key"@,
            },
        },
        hero.play_label == (if song.is_current() && song.playback_playing {
            "Pause"
        } else {
            "Play"
        }),
        song.is_current() ==> command_view(hero.play_action) == (
            UiDomain::Library,
            "ToggleLibraryPlayback"@,
            Seq::<Seq<char>>::empty(),
        ),
        !song.is_current() ==> command_view(hero.play_action) == (
            UiDomain::Library,
            "PlayLibrarySong"@,
            seq![song.file_hash@],
        ),
        command_view(hero.workflow_action) == (
            UiDomain::Analysis,
            "OpenProcessingStudio"@,
            seq![song.file_hash@],
        ),
        command_view(hero.settings_action) == (
            UiDomain::Editor,
            "OpenSongSettings"@,
            seq![song.file_hash@],
        ),
        (hero.next_title, hero.next_detail, hero.next_icon, hero.next_color) == spec_next_step(
            *song,
            primary_label@ == "View processing queue"@,
        ),
{
    let hash = song.file_hash.as_str();
    let current = match &song.playback_hash {
        Some(h) => str_equal(h.as_str(), hash) && song.playback_loaded,
        None => false,
    };
    let playing = current && song.playback_playing;
    let play_action = if current {
        let c = UiCommand::new(UiDomain::Library, "ToggleLibraryPlayback");
        assert(c.payload@.map_values(|s: String| s@) =~= Seq::<Seq<char>>::empty());
        UiAction(c)
    } else {
        let c = UiCommand::with_value(UiDomain::Library, "PlayLibrarySong", hash);
        assert(c.payload@.map_values(|s: String| s@) =~= seq![song.file_hash@]);
        UiAction(c)
    };
    let workflow = UiCommand::with_value(UiDomain::Analysis, "OpenProcessingStudio", hash);
    assert(workflow.payload@.map_values(|s: String| s@) =~= seq![song.file_hash@]);
    let settings = UiCommand::with_value(UiDomain::Editor, "OpenSongSettings", hash);
    assert(settings.payload@.map_values(|s: String| s@) =~= seq![song.file_hash@]);
    let subtitle = if song.album.unicode_len() == 0 {
        owned(song.artist.as_str())
    } else {
        let mut s = owned(song.artist.as_str());
        push_str(&mut s, " · ");
        push_str(&mut s, song.album.as_str());
        s
    };
    let mut media = owned(if song.is_video {
        "Video"
    } else {
        "Audio"
    });
    push_str(&mut media, " · ");
    let extension = match &song.extension {
        Some(e) => chars_of(e.as_str()),
        None => chars_of("media"),
    };
    let upper = string_of(&to_ascii_uppercase(&extension));
    push_str(&mut media, upper.as_str());
    let transcript = match &song.transcript_source {
        Some(t) => owned(t.as_str()),
        None => owned("Not available"),
    };
    let key = match &song.override_key {
        Some(k) => owned(k.as_str()),
        None => match &song.key {
            Some(k) => owned(k.as_str()),
            None => owned("Unknown key"),
        },
    };
    let (next_title, next_detail, next_icon, next_color) = if str_equal(
        primary_label,
        "View processing queue",
    ) {
        (
            "Analysis is running",
            "Open the processing queue to review the active stage, progress and runtime details.",
            StepIcon::Sparkles,
            ThemeColor::Primary,
        )
    } else if song.authoring_ready {
        (
            "Ready to edit & export",
            "The authored chart is ready for detailed editing, validation and project export.",
            StepIcon::Scissors,
            ThemeColor::PitchContour,
        )
    } else if song.editor_ready {
        (
            "Review the candidate chart",
            "Open the editor to inspect timing, lyrics and notes before publishing an authored chart.",
            StepIcon::Scissors,
            ThemeColor::Primary,
        )
    } else if song.is_analyzed {
        (
            "Continue the production path",
            "Analysis evidence exists, but the chart is not ready yet. Queue another run or inspect the workflow.",
            StepIcon::Sparkles,
            ThemeColor::EditorWarning,
        )
    } else {
        (
            "Analyze this song",
            "Generate lyrics, timing, pitch and candidate-chart evidence while keeping the source file unchanged.",
            StepIcon::Sparkles,
            ThemeColor::Primary,
        )
    };
    SongHero {
        analysis_label: if song.is_analyzed {
            "Analysis complete"
        } else {
            "Analysis needed"
        },
        analysis_color: if song.is_analyzed {
            ThemeColor::PitchContour
        } else {
            ThemeColor::EditorWarning
        },
        chart_label: if song.authoring_ready {
            "Chart ready"
        } else if song.editor_ready {
            "Candidate ready"
        } else {
            "Chart incomplete"
        },
        chart_color: if song.authoring_ready || song.editor_ready {
            ThemeColor::Primary
        } else {
            ThemeColor::MutedForeground
        },
        subtitle,
        media,
        transcript,
        transcript_color: if song.transcript_source.is_some() {
            ThemeColor::PitchContour
        } else {
            ThemeColor::MutedForeground
        },
        key,
        play_label: if playing {
            "Pause"
        } else {
            "Play"
        },
        play_action,
        workflow_action: UiAction(workflow),
        settings_action: UiAction(settings),
        next_title,
        next_detail,
        next_icon,
        next_color,
    }
}

/// The empty workspace shown when no song is selected: its title, its
/// explanation and the button back to the library.
pub fn no_song_prompt() -> (prompt: (&'static str, &'static str, (String, UiAction)))
    ensures
        prompt.0 == "Choose a song to open its workspace",
        prompt.1
            == "Select a track from the library to review its analysis, edit lyrics and chart data, or export a project.",
        action_view(prompt.2) == button("Browse library"@, UiDomain::App, "Home"@, Seq::empty()),
{
    (
        "Choose a song to open its workspace",
        "Select a track from the library to review its analysis, edit lyrics and chart data, or export a project.",
        crate::ui_api::plain_button("Browse library", UiDomain::App, "Home"),
    )
}


// ---------------------------------------------------------------------------
// The song settings panel
// ---------------------------------------------------------------------------

/// What the song settings panel reads about a song.
pub struct SongSettingsFacts {
    pub title: String,
    pub artist: String,
    pub key: Option<String>,
    /// Whether a background video is set, and the file name of its path
    /// when it has a readable one.
    pub background_video_set: bool,
    pub background_video_name: Option<String>,
}

/// The fixed parts of the song settings panel.
pub struct SongSettingsPanel {
    pub heading: String,
    pub key_line: String,
    pub video_label: String,
    pub video_actions: Vec<(String, UiAction)>,
}

pub open spec fn spec_video_actions(set: bool) -> Seq<ActionView> {
    let choose = button("Choose…"@, UiDomain::Editor, "ChooseBackgroundVideo"@, Seq::empty());
    if set {
        seq![choose, button("Clear"@, UiDomain::Editor, "ClearBackgroundVideo"@, Seq::empty())]
    } else {
        seq![choose]
    }
}

/// The heading, the detected-key note, the background video's label and its
/// buttons: a video can always be chosen, and cleared once one is set.
pub fn song_settings_panel(song: &SongSettingsFacts) -> (panel: SongSettingsPanel)
    ensures
        panel.heading@ == "Song settings · "@ + song.title@,
        panel.key_line@ == "Detected key: "@ + match song.key {
            Some(k) => k@,
            None => "Unknown"@,
        } + " — use the Key transpose control on this song to change it."@,
        panel.video_label@ == match song.background_video_name {
            Some(n) => n@,
            None => "None set"@,
        },
        panel.video_actions@.map_values(|a: (String, UiAction)| action_view(a)) == spec_video_actions(
            song.background_video_set,
        ),
{
    let mut heading = owned("Song settings · ");
    push_str(&mut heading, song.title.as_str());
    let mut key_line = owned("Detected key: ");
    match &song.key {
        Some(k) => push_str(&mut key_line, k.as_str()),
        None => push_str(&mut key_line, "Unknown"),
    }
    push_str(&mut key_line, " — use the Key transpose control on this song to change it.");
    let video_label = match &song.background_video_name {
        Some(n) => owned(n.as_str()),
        None => owned("None set"),
    };
    let mut video_actions: Vec<(String, UiAction)> = Vec::new();
    video_actions.push(crate::ui_api::plain_button("Choose…", UiDomain::Editor, "ChooseBackgroundVideo"));
    if song.background_video_set {
        video_actions.push(crate::ui_api::plain_button("Clear", UiDomain::Editor, "ClearBackgroundVideo"));
    }
    assert(video_actions@.map_values(|a: (String, UiAction)| action_view(a)) =~= spec_video_actions(
        song.background_video_set,
    ));
    SongSettingsPanel { heading, key_line, video_label, video_actions }
}


// ---------------------------------------------------------------------------
// Confirmation dialogs
// ---------------------------------------------------------------------------

/// A confirmation dialog: its heading, its text, the button that backs out,
/// and the button that goes ahead (`None` where the dialog can only explain
/// why it cannot).
pub struct Confirmation {
    pub heading: &'static str,
    pub body: String,
    pub cancel: (String, UiAction),
    pub confirm: Option<(String, UiAction)>,
}

pub open spec fn song_title_or_default(title: Option<Seq<char>>) -> Seq<char> {
    match title {
        Some(t) => t,
        None => "this song"@,
    }
}

fn title_text(title: Option<&str>) -> (t: String)
    ensures
        t@ == song_title_or_default(
            match title {
                Some(s) => Some(s@),
                None => None,
            },
        ),
{
    match title {
        Some(s) => owned(s),
        None => owned("this song"),
    }
}

/// Asks before deleting a song's generated data; `title` is the song's
/// title when the library still has it.
pub fn cache_delete_confirmation(title: Option<&str>) -> (dialog: Confirmation)
    ensures
        dialog.heading == "Delete generated song data?",
        dialog.body@ == "Generated stems, transcripts, pitch data, and derived variants for “"@
            + song_title_or_default(
            match title {
                Some(s) => Some(s@),
                None => None,
            },
        ) + "” will be removed. The source song remains untouched."@,
        action_view(dialog.cancel) == button("Cancel"@, UiDomain::Analysis, "CancelDeleteSongCache"@, Seq::empty()),
        dialog.confirm matches Some(c) && action_view(c) == button(
            "Delete generated data"@,
            UiDomain::Analysis,
            "ConfirmDeleteSongCache"@,
            Seq::empty(),
        ),
{
    let mut body = owned("Generated stems, transcripts, pitch data, and derived variants for “");
    let t = title_text(title);
    push_str(&mut body, t.as_str());
    push_str(&mut body, "” will be removed. The source song remains untouched.");
    Confirmation {
        heading: "Delete generated song data?",
        body,
        cancel: crate::ui_api::plain_button("Cancel", UiDomain::Analysis, "CancelDeleteSongCache"),
        confirm: Some(
            crate::ui_api::plain_button(
                "Delete generated data",
                UiDomain::Analysis,
                "ConfirmDeleteSongCache",
            ),
        ),
    }
}

/// Asks before deleting a song's authored chart; a pinned chart cannot be
/// deleted until it is unpinned.
pub fn chart_delete_confirmation(title: Option<&str>, pinned: bool) -> (dialog: Confirmation)
    ensures
        dialog.heading == "Delete chart?",
        pinned ==> dialog.body@
            == "This authored chart is pinned. Unpin the artifact revision before deleting it. Source media, CandidateChart and analysis evidence are retained."@,
        !pinned ==> dialog.body@ == "Delete the authored chart for "@ + song_title_or_default(
            match title {
                Some(s) => Some(s@),
                None => None,
            },
        )
            + "? Source media, CandidateChart and analysis evidence are retained. A retained revision can be reactivated later in Artifact Workbench."@,
        action_view(dialog.cancel) == button("Cancel"@, UiDomain::Analysis, "CancelDeleteAuthoredChart"@, Seq::empty()),
        pinned ==> dialog.confirm is None,
        !pinned ==> (dialog.confirm matches Some(c) && action_view(c) == button(
            "Delete chart"@,
            UiDomain::Analysis,
            "ConfirmDeleteAuthoredChart"@,
            Seq::empty(),
        )),
{
    let body = if pinned {
        owned(
            "This authored chart is pinned. Unpin the artifact revision before deleting it. Source media, CandidateChart and analysis evidence are retained.",
        )
    } else {
        let mut b = owned("Delete the authored chart for ");
        let t = title_text(title);
        push_str(&mut b, t.as_str());
        push_str(
            &mut b,
            "? Source media, CandidateChart and analysis evidence are retained. A retained revision can be reactivated later in Artifact Workbench.",
        );
        b
    };
    Confirmation {
        heading: "Delete chart?",
        body,
        cancel: crate::ui_api::plain_button("Cancel", UiDomain::Analysis, "CancelDeleteAuthoredChart"),
        confirm: if pinned {
            None
        } else {
            Some(crate::ui_api::plain_button("Delete chart", UiDomain::Analysis, "ConfirmDeleteAuthoredChart"))
        },
    }
}

pub open spec fn replace_changes(summary: CandidateChartSummary) -> Seq<Seq<char>> {
    (if summary.lyrics_changed {
        seq!["lyrics timing"@]
    } else {
        Seq::empty()
    }) + (if summary.pitch_evidence_changed {
        seq!["pitch evidence"@]
    } else {
        Seq::empty()
    })
}

pub open spec fn spec_replace_body(title: Seq<char>, pinned: bool, status: CandidateChartStatus) -> Seq<char> {
    if pinned {
        "The authored chart for “"@ + title
            + "” is pinned. Unpin that revision before replacing it with the candidate. Keep Authored leaves the saved chart unchanged."@
    } else {
        match status {
            CandidateChartStatus::CandidateAvailable(s) => "The current candidate analysis for “"@ + title
                + "” has "@ + decimal(s.candidate_note_count as nat) + " note(s) across "@ + decimal(
                s.candidate_phrase_count as nat,
            ) + " phrase(s), versus "@ + decimal(s.authored_note_count as nat) + " note(s) across "@
                + decimal(s.authored_phrase_count as nat) + " phrase(s) in your saved chart. Updated: "@
                + joined(replace_changes(s), " & "@)
                + ". Replacing discards your edits; the next time you open the editor it rebuilds from this candidate instead."@,
            _ => "No candidate analysis is currently available for “"@ + title
                + "”. Replacing would discard your saved chart and rebuild from whatever analysis output already exists on disk."@,
        }
    }
}

/// Asks before replacing the authored chart with the current candidate: it
/// compares their note and phrase counts and names what changed; a pinned
/// chart must be unpinned first, and without a candidate the dialog warns
/// what replacing would rebuild from.
pub fn chart_replace_confirmation(title: Option<&str>, pinned: bool, status: &CandidateChartStatus) -> (dialog:
    Confirmation)
    ensures
        dialog.heading == (if pinned {
            "Authored chart is pinned"
        } else {
            "Replace authored chart with the candidate?"
        }),
        dialog.body@ == spec_replace_body(
            song_title_or_default(
                match title {
                    Some(s) => Some(s@),
                    None => None,
                },
            ),
            pinned,
            *status,
        ),
        action_view(dialog.cancel) == button("Keep my chart"@, UiDomain::Analysis, "KeepAuthoredChart"@, Seq::empty()),
        pinned ==> dialog.confirm is None,
        !pinned ==> (dialog.confirm matches Some(c) && action_view(c) == button(
            "Replace with candidate"@,
            UiDomain::Analysis,
            "ConfirmReplaceAuthoredChart"@,
            Seq::empty(),
        )),
{
    let t = title_text(title);
    let body = if pinned {
        let mut b = owned("The authored chart for “");
        push_str(&mut b, t.as_str());
        push_str(
            &mut b,
            "” is pinned. Unpin that revision before replacing it with the candidate. Keep Authored leaves the saved chart unchanged.",
        );
        b
    } else {
        match status {
            CandidateChartStatus::CandidateAvailable(s) => {
                let mut changed: Vec<&str> = Vec::new();
                if s.lyrics_changed {
                    changed.push("lyrics timing");
                }
                if s.pitch_evidence_changed {
                    changed.push("pitch evidence");
                }
                assert(changed@.map_values(|p: &str| p@) =~= replace_changes(*s));
                let mut b = owned("The current candidate analysis for “");
                push_str(&mut b, t.as_str());
                push_str(&mut b, "” has ");
                push_decimal(&mut b, s.candidate_note_count as u64);
                push_str(&mut b, " note(s) across ");
                push_decimal(&mut b, s.candidate_phrase_count as u64);
                push_str(&mut b, " phrase(s), versus ");
                push_decimal(&mut b, s.authored_note_count as u64);
                push_str(&mut b, " note(s) across ");
                push_decimal(&mut b, s.authored_phrase_count as u64);
                push_str(&mut b, " phrase(s) in your saved chart. Updated: ");
                let joined_changes = join(&changed, " & ");
                push_str(&mut b, joined_changes.as_str());
                push_str(
                    &mut b,
                    ". Replacing discards your edits; the next time you open the editor it rebuilds from this candidate instead.",
                );
                b
            },
            _ => {
                let mut b = owned("No candidate analysis is currently available for “");
                push_str(&mut b, t.as_str());
                push_str(
                    &mut b,
                    "”. Replacing would discard your saved chart and rebuild from whatever analysis output already exists on disk.",
                );
                b
            },
        }
    };
    Confirmation {
        heading: if pinned {
            "Authored chart is pinned"
        } else {
            "Replace authored chart with the candidate?"
        },
        body,
        cancel: crate::ui_api::plain_button("Keep my chart", UiDomain::Analysis, "KeepAuthoredChart"),
        confirm: if pinned {
            None
        } else {
            Some(
                crate::ui_api::plain_button(
                    "Replace with candidate",
                    UiDomain::Analysis,
                    "ConfirmReplaceAuthoredChart",
                ),
            )
        },
    }
}

} // verus!
