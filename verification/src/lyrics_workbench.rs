//! The Lyrics Workbench: its wording per input mode, the paging of search
//! results and the edit-impact preview.
use vstd::prelude::*;

use crate::authoring::{format_lrc_centiseconds, spec_lrc_timestamp};
use crate::song_detail::{trim_chars, trimmed};
use crate::text::{chars_equal, chars_of, decimal, join_strings, joined, owned, push_decimal, push_str, string_of};
use crate::ui_api::{action_view, button, plain_button, ActionView, UiAction, UiCommand, UiDomain};

verus! {

/// How the lyrics being edited are written.
#[derive(Clone, Copy, Debug, PartialEq, Eq)]
pub enum LyricsInputMode {
    Plain,
    TimedLrc,
    StructuredTimedTranscript,
}

pub open spec fn spec_workbench_title(mode: LyricsInputMode) -> &'static str {
    match mode {
        LyricsInputMode::StructuredTimedTranscript => "TimedTranscript JSON",
        LyricsInputMode::TimedLrc => "Timed LRC",
        LyricsInputMode::Plain => "Plain lyrics",
    }
}

/// The workbench title for the input mode.
pub fn workbench_title(mode: LyricsInputMode) -> (title: &'static str)
    ensures
        title == spec_workbench_title(mode),
{
    match mode {
        LyricsInputMode::StructuredTimedTranscript => "TimedTranscript JSON",
        LyricsInputMode::TimedLrc => "Timed LRC",
        LyricsInputMode::Plain => "Plain lyrics",
    }
}

/// The explanation under the title: the structured editor's ordering rules,
/// or how searching and editing work.
pub fn workbench_description(mode: LyricsInputMode) -> (description: &'static str)
    ensures
        description == (if mode == LyricsInputMode::StructuredTimedTranscript {
            "Edit the lossless segment/word structure. Start/end values must remain ordered and every word must remain inside its segment."
        } else {
            "Search four lyric sources, load the needed representation, then review it in the native Unicode editor. Ctrl+A/C/X/V and multiline copy/paste are supported by the focused text field."
        }),
{
    match mode {
        LyricsInputMode::StructuredTimedTranscript => {
            "Edit the lossless segment/word structure. Start/end values must remain ordered and every word must remain inside its segment."
        },
        _ => {
            "Search four lyric sources, load the needed representation, then review it in the native Unicode editor. Ctrl+A/C/X/V and multiline copy/paste are supported by the focused text field."
        },
    }
}

/// The caption of the button that switches between the plain and the timed
/// editor.
pub fn mode_toggle_label(mode: LyricsInputMode) -> (label: &'static str)
    ensures
        label == (if mode == LyricsInputMode::TimedLrc {
            "Use plain editor"
        } else {
            "Use timed LRC editor"
        }),
{
    match mode {
        LyricsInputMode::TimedLrc => "Use plain editor",
        _ => "Use timed LRC editor",
    }
}

/// The caption of the search button.
pub fn search_button_label(searching: bool) -> (label: &'static str)
    ensures
        label == (if searching {
            "Searching…"
        } else {
            "Search all sources"
        }),
{
    if searching {
        "Searching…"
    } else {
        "Search all sources"
    }
}

// ---------------------------------------------------------------------------
// Paging the search results
// ---------------------------------------------------------------------------

pub open spec fn spec_page_count(count: nat, slots: nat) -> nat
    recommends
        slots > 0,
{
    let padded = count + slots - 1;
    let saturated = if padded > usize::MAX {
        usize::MAX as nat
    } else {
        padded as nat
    };
    saturated / slots
}

pub open spec fn spec_page_start(page: nat, slots: nat) -> nat {
    page * slots
}

pub open spec fn spec_page_end(page: nat, count: nat, slots: nat) -> nat {
    let next = page * slots + slots;
    if next < count {
        next
    } else {
        count
    }
}

/// One page of search results.
#[derive(Debug, PartialEq, Eq)]
pub struct CandidatePage {
    /// The header: whether results are still loading.
    pub header: &'static str,
    /// The results shown are those at `start..end`.
    pub start: usize,
    pub end: usize,
    pub total_pages: usize,
    /// `page / total`, shown with the paging buttons when there is more
    /// than one page.
    pub position: Option<String>,
}

/// The results page `page` of `count` results, `slots` to a page; `None`
/// when there is nothing to show (no search running and no result).
pub fn candidate_page(page: usize, count: usize, slots: usize, searching: bool) -> (shown: Option<
    CandidatePage,
>)
    requires
        slots > 0,
        page * slots + slots <= usize::MAX,
    ensures
        !searching && count == 0 ==> shown is None,
        searching || count > 0 ==> (shown matches Some(p) && {
            &&& p.header == (if searching {
                "SEARCH RESULTS · loading"
            } else {
                "SEARCH RESULTS"
            })
            &&& p.start == spec_page_start(page as nat, slots as nat)
            &&& p.end == spec_page_end(page as nat, count as nat, slots as nat)
            &&& p.total_pages == spec_page_count(count as nat, slots as nat)
            &&& p.total_pages > 1 ==> (p.position matches Some(s) && s@ == decimal((page + 1) as nat)
                + " / "@ + decimal(p.total_pages as nat))
            &&& p.total_pages <= 1 ==> p.position is None
        }),
{
    if !searching && count == 0 {
        return None;
    }
    assert(page + 1 <= page * slots + slots) by (nonlinear_arith)
        requires
            slots > 0,
    ;
    let start = page * slots;
    let end = if start + slots < count {
        start + slots
    } else {
        count
    };
    let padded = count.saturating_add(slots - 1);
    let total_pages = padded / slots;
    let position = if total_pages > 1 {
        let mut s = String::new();
        push_decimal(&mut s, (page + 1) as u64);
        push_str(&mut s, " / ");
        push_decimal(&mut s, total_pages as u64);
        Some(s)
    } else {
        None
    };
    Some(
        CandidatePage {
            header: if searching {
                "SEARCH RESULTS · loading"
            } else {
                "SEARCH RESULTS"
            },
            start,
            end,
            total_pages,
            position,
        },
    )
}

/// Every result is on exactly one page, the one numbered by its index
/// divided by the page size, and that page is among the pages counted.
pub proof fn law_each_result_is_on_its_page(count: nat, slots: nat, i: nat)
    requires
        slots > 0,
        i < count,
        count + slots - 1 <= usize::MAX,
    ensures
        i / slots < spec_page_count(count, slots),
        spec_page_start(i / slots, slots) <= i < spec_page_end(i / slots, count, slots),
        forall|p: nat|
            p != i / slots ==> !(#[trigger] spec_page_start(p, slots) <= i < spec_page_end(p, count, slots)),
{
    let q = i / slots;
    assert(q * slots <= i < q * slots + slots) by (nonlinear_arith)
        requires
            slots > 0,
            q == i / slots,
    ;
    assert((count + slots - 1) as nat / slots > q) by (nonlinear_arith)
        requires
            slots > 0,
            q == i / slots,
            i < count,
            q * slots <= i,
    ;
    assert forall|p: nat| p != q implies !(#[trigger] spec_page_start(p, slots) <= i < spec_page_end(
        p,
        count,
        slots,
    )) by {
        if p < q {
            assert(p * slots + slots <= q * slots) by (nonlinear_arith)
                requires
                    p < q,
                    slots > 0,
            ;
        } else {
            assert(p * slots >= q * slots + slots) by (nonlinear_arith)
                requires
                    p > q,
                    slots > 0,
            ;
        }
    }
}

/// Every page that is counted shows at least one result.
pub proof fn law_counted_pages_are_not_empty(count: nat, slots: nat, page: nat)
    requires
        slots > 0,
        count + slots - 1 <= usize::MAX,
        page < spec_page_count(count, slots),
    ensures
        spec_page_start(page, slots) < spec_page_end(page, count, slots),
{
    assert(page * slots < count) by (nonlinear_arith)
        requires
            slots > 0,
            page < (count + slots - 1) as nat / slots,
    ;
}

// ---------------------------------------------------------------------------
// The structured transcript list
// ---------------------------------------------------------------------------

/// The structured transcript list shows at most this many segments.
pub const TRANSCRIPT_SEGMENT_LIMIT: usize = 50;

/// ... and at most this many word rows over all of them.
pub const TRANSCRIPT_WORD_LIMIT: usize = 200;

/// How many word rows the first `i` segments show.
pub open spec fn words_shown_before(word_counts: Seq<usize>, i: nat) -> nat
    decreases i,
{
    if i == 0 {
        0
    } else {
        let before = words_shown_before(word_counts, (i - 1) as nat);
        before + words_shown_at(word_counts, (i - 1) as nat, before)
    }
}

/// How many of segment `i`'s words are shown when `before` word rows are
/// already shown: as many as remain under the limit.
pub open spec fn words_shown_at(word_counts: Seq<usize>, i: nat, before: nat) -> nat {
    let room: int = TRANSCRIPT_WORD_LIMIT - before;
    if room <= 0 {
        0
    } else if word_counts[i as int] <= room {
        word_counts[i as int] as nat
    } else {
        room as nat
    }
}

/// What the structured transcript list shows.
pub struct TranscriptListPlan {
    /// For each segment shown, in order, how many of its words are listed.
    pub segment_words: Vec<usize>,
    /// Whether the note that the list is bounded is shown.
    pub bounded_notice: bool,
}

/// `plan` is the list plan for segments with these word counts: the first
/// segments up to the segment limit, each with its words until the word
/// limit is reached, and the bounded notice when segments or words were
/// left out.
pub open spec fn is_transcript_list_plan(word_counts: Seq<usize>, plan: TranscriptListPlan) -> bool {
    &&& plan.segment_words@.len() == if word_counts.len() < TRANSCRIPT_SEGMENT_LIMIT {
        word_counts.len()
    } else {
        TRANSCRIPT_SEGMENT_LIMIT as nat
    }
    &&& forall|i: int|
        0 <= i < plan.segment_words@.len() ==> plan.segment_words@[i] == words_shown_at(
            word_counts,
            i as nat,
            words_shown_before(word_counts, i as nat),
        )
    &&& plan.bounded_notice == (word_counts.len() > TRANSCRIPT_SEGMENT_LIMIT || words_shown_before(
        word_counts,
        plan.segment_words@.len(),
    ) >= TRANSCRIPT_WORD_LIMIT)
}

/// Plans the structured transcript list from the number of words of each
/// segment (the JSON editor below the list keeps every segment and word).
pub fn transcript_list_plan(word_counts: &Vec<usize>) -> (plan: TranscriptListPlan)
    ensures
        is_transcript_list_plan(word_counts@, plan),
{
    let shown = if word_counts.len() < TRANSCRIPT_SEGMENT_LIMIT {
        word_counts.len()
    } else {
        TRANSCRIPT_SEGMENT_LIMIT
    };
    let mut segment_words: Vec<usize> = Vec::new();
    let mut rendered: usize = 0;
    let mut i: usize = 0;
    while i < shown
        invariant
            shown <= word_counts@.len(),
            i <= shown,
            segment_words@.len() == i,
            rendered == words_shown_before(word_counts@, i as nat),
            rendered <= TRANSCRIPT_WORD_LIMIT,
            forall|k: int|
                0 <= k < i ==> segment_words@[k] == words_shown_at(
                    word_counts@,
                    k as nat,
                    words_shown_before(word_counts@, k as nat),
                ),
        decreases shown - i,
    {
        let room = TRANSCRIPT_WORD_LIMIT - rendered;
        let words = if word_counts[i] <= room {
            word_counts[i]
        } else {
            room
        };
        segment_words.push(words);
        rendered = rendered + words;
        i = i + 1;
    }
    TranscriptListPlan {
        segment_words,
        bounded_notice: word_counts.len() > TRANSCRIPT_SEGMENT_LIMIT || rendered
            >= TRANSCRIPT_WORD_LIMIT,
    }
}

/// However long the transcript, the list never holds more word rows than
/// the word limit, and no segment lists more words than it has.
pub proof fn law_transcript_list_is_bounded(word_counts: Seq<usize>, i: nat)
    requires
        i <= word_counts.len(),
    ensures
        words_shown_before(word_counts, i) <= TRANSCRIPT_WORD_LIMIT,
        i < word_counts.len() ==> words_shown_at(
            word_counts,
            i,
            words_shown_before(word_counts, i),
        ) <= word_counts[i as int],
    decreases i,
{
    if i > 0 {
        law_transcript_list_is_bounded(word_counts, (i - 1) as nat);
    }
}

/// A JSON document as the transcript list reads it. Numbers are kept only
/// as numbers: the list never reads their value.
pub enum JsonValue {
    Null,
    Bool(bool),
    Number,
    Text(String),
    Array(Vec<JsonValue>),
    /// The members of an object, in order; a parsed object holds each key
    /// once.
    Object(Vec<(String, JsonValue)>),
}

/// The value of the first member of `members` named `key`.
pub open spec fn member(members: Seq<(String, JsonValue)>, key: Seq<char>) -> Option<JsonValue>
    decreases members.len(),
{
    if members.len() == 0 {
        None
    } else if members[0].0@ == key {
        Some(members[0].1)
    } else {
        member(members.drop_first(), key)
    }
}

/// How many words a segment lists: the length of its `words` array, 0 when
/// it has none.
pub open spec fn segment_word_count(segment: JsonValue) -> usize {
    match segment {
        JsonValue::Object(members) => match member(members@, "words"@) {
            Some(JsonValue::Array(words)) => words@.len() as usize,
            _ => 0,
        },
        _ => 0,
    }
}

/// The number of words of each segment of a structured timed transcript;
/// `None` when the document is not an object with a `segments` array.
pub open spec fn spec_transcript_word_counts(document: JsonValue) -> Option<Seq<usize>> {
    match document {
        JsonValue::Object(members) => match member(members@, "segments"@) {
            Some(JsonValue::Array(segments)) => Some(
                segments@.map_values(|segment: JsonValue| segment_word_count(segment)),
            ),
            _ => None,
        },
        _ => None,
    }
}

fn find_member<'a>(members: &'a Vec<(String, JsonValue)>, key: &str) -> (found: Option<&'a JsonValue>)
    ensures
        match found {
            Some(v) => member(members@, key@) == Some(*v),
            None => member(members@, key@) is None,
        },
{
    let wanted = chars_of(key);
    let mut i: usize = 0;
    assert(members@.skip(0) =~= members@);
    while i < members.len()
        invariant
            i <= members@.len(),
            wanted@ == key@,
            member(members@, key@) == member(members@.skip(i as int), key@),
        decreases members.len() - i,
    {
        proof {
            assert(members@.skip(i as int).drop_first() =~= members@.skip(i + 1));
            assert(members@.skip(i as int)[0] == members@[i as int]);
        }
        if chars_equal(&chars_of(members[i].0.as_str()), &wanted) {
            return Some(&members[i].1);
        }
        i = i + 1;
    }
    None
}

/// The number of words of each segment of a transcript document.
pub fn transcript_word_counts(document: &JsonValue) -> (counts: Option<Vec<usize>>)
    ensures
        match counts {
            Some(c) => spec_transcript_word_counts(*document) == Some(c@),
            None => spec_transcript_word_counts(*document) is None,
        },
{
    let members = match document {
        JsonValue::Object(members) => members,
        _ => {
            return None;
        },
    };
    let segments = match find_member(members, "segments") {
        Some(JsonValue::Array(segments)) => segments,
        _ => {
            return None;
        },
    };
    let mut counts: Vec<usize> = Vec::new();
    let mut i: usize = 0;
    while i < segments.len()
        invariant
            i <= segments@.len(),
            counts@ == segments@.take(i as int).map_values(
                |segment: JsonValue| segment_word_count(segment),
            ),
        decreases segments.len() - i,
    {
        let count: usize = match &segments[i] {
            JsonValue::Object(fields) => match find_member(fields, "words") {
                Some(JsonValue::Array(words)) => words.len(),
                _ => 0,
            },
            _ => 0,
        };
        counts.push(count);
        i = i + 1;
        assert(counts@ =~= segments@.take(i as int).map_values(
            |segment: JsonValue| segment_word_count(segment),
        ));
    }
    assert(segments@.take(segments@.len() as int) =~= segments@);
    Some(counts)
}

/// The structured transcript list of a transcript document; `None` (no
/// list) when it is not a transcript with segments.
pub fn transcript_list(document: &JsonValue) -> (plan: Option<TranscriptListPlan>)
    ensures
        match spec_transcript_word_counts(*document) {
            None => plan is None,
            Some(counts) => plan matches Some(p) && is_transcript_list_plan(counts, p),
        },
{
    match transcript_word_counts(document) {
        Some(counts) => Some(transcript_list_plan(&counts)),
        None => None,
    }
}

// ---------------------------------------------------------------------------
// Impact preview and the unavailable workbench
// ---------------------------------------------------------------------------

pub open spec fn spec_impact_preview(affected_nodes: nat, exports_need_regeneration: bool) -> Seq<char> {
    "Impact preview · "@ + decimal(affected_nodes) + " downstream node(s) · Authored Chart preserved"@
        + if exports_need_regeneration {
        " · exports may need regeneration"@
    } else {
        Seq::empty()
    }
}

/// What editing an analysis artifact would touch downstream.
pub fn impact_preview(affected_nodes: usize, exports_need_regeneration: bool) -> (copy: String)
    ensures
        copy@ == spec_impact_preview(affected_nodes as nat, exports_need_regeneration),
{
    let mut copy = owned("Impact preview · ");
    push_decimal(&mut copy, affected_nodes as u64);
    push_str(&mut copy, " downstream node(s) · Authored Chart preserved");
    if exports_need_regeneration {
        push_str(&mut copy, " · exports may need regeneration");
    }
    copy
}

/// What the workbench page shows when no lyrics editor is open: a title,
/// an explanation and the way back.
pub fn workbench_unavailable() -> (shown: (&'static str, &'static str, (String, UiAction)))
    ensures
        shown.0 == "Lyrics Workbench unavailable",
        shown.1 == "Return to a song or the chart editor and open Lyrics Workbench again.",
        action_view(shown.2) == button("Back"@, UiDomain::App, "Back"@, Seq::empty()),
{
    (
        "Lyrics Workbench unavailable",
        "Return to a song or the chart editor and open Lyrics Workbench again.",
        plain_button("Back", UiDomain::App, "Back"),
    )
}


// ---------------------------------------------------------------------------
// Search result cards
// ---------------------------------------------------------------------------

/// What a search result offers once its lyrics are loaded.
#[derive(Clone, Copy, Debug, PartialEq, Eq)]
pub struct LoadedCandidate {
    pub has_lines: bool,
    pub has_synced_lyrics: bool,
    pub has_translation: bool,
    pub has_romanization: bool,
}

pub open spec fn use_button(caption: Seq<char>, index: nat, mode: Seq<char>) -> ActionView {
    button(caption, UiDomain::Editor, "UseLyricsCandidate"@, seq![decimal(index), mode])
}

pub open spec fn spec_candidate_actions(index: nat, loaded: Option<LoadedCandidate>, fetching: Option<usize>) -> Seq<
    ActionView,
> {
    match loaded {
        None => seq![
            button(
                if fetching == Some(index as usize) {
                    "Loading…"@
                } else {
                    "Load"@
                },
                UiDomain::Editor,
                "LoadLyricsCandidate"@,
                seq![decimal(index)],
            ),
        ],
        Some(c) => (if c.has_lines || c.has_synced_lyrics {
            seq![use_button("Plain"@, index, "Plain"@)]
        } else {
            Seq::empty()
        }) + (if c.has_synced_lyrics {
            seq![use_button("Timed LRC"@, index, "TimedLrc"@)]
        } else {
            Seq::empty()
        }) + (if c.has_translation {
            seq![use_button("Translation"@, index, "Translation"@)]
        } else {
            Seq::empty()
        }) + (if c.has_romanization {
            seq![use_button("Romanization"@, index, "Romanization"@)]
        } else {
            Seq::empty()
        }),
    }
}

fn use_action(caption: &str, index: usize, mode: &str) -> (b: (String, UiAction))
    ensures
        action_view(b) == use_button(caption@, index as nat, mode@),
{
    let mut number = String::new();
    push_decimal(&mut number, index as u64);
    let mut payload: Vec<String> = Vec::new();
    payload.push(number);
    payload.push(owned(mode));
    let b = (
        owned(caption),
        UiAction(UiCommand { domain: UiDomain::Editor, variant: owned("UseLyricsCandidate"), payload }),
    );
    assert(b.1.0.payload@.map_values(|s: String| s@) =~= seq![decimal(index as nat), mode@]);
    b
}

/// The buttons of the search result at `index`: one that loads it (marked
/// while that result is being fetched), or, once loaded, one per form it can
/// be used in.
pub fn candidate_actions(index: usize, loaded: Option<LoadedCandidate>, fetching: Option<usize>) -> (actions:
    Vec<(String, UiAction)>)
    ensures
        actions@.map_values(|a: (String, UiAction)| action_view(a)) == spec_candidate_actions(
            index as nat,
            loaded,
            fetching,
        ),
{
    let mut actions: Vec<(String, UiAction)> = Vec::new();
    match loaded {
        None => {
            let caption = if fetching == Some(index) {
                "Loading…"
            } else {
                "Load"
            };
            let mut number = String::new();
            push_decimal(&mut number, index as u64);
            let mut payload: Vec<String> = Vec::new();
            payload.push(number);
            assert(payload@.map_values(|s: String| s@) =~= seq![decimal(index as nat)]);
            actions.push(
                (
                    owned(caption),
                    UiAction(UiCommand { domain: UiDomain::Editor, variant: owned("LoadLyricsCandidate"), payload }),
                ),
            );
        },
        Some(c) => {
            let ghost v0 = actions@.map_values(|a: (String, UiAction)| action_view(a));
            if c.has_lines || c.has_synced_lyrics {
                actions.push(use_action("Plain", index, "Plain"));
            }
            let ghost v1 = actions@.map_values(|a: (String, UiAction)| action_view(a));
            assert(v1 =~= v0 + if c.has_lines || c.has_synced_lyrics {
                seq![use_button("Plain"@, index as nat, "Plain"@)]
            } else {
                Seq::empty()
            });
            if c.has_synced_lyrics {
                actions.push(use_action("Timed LRC", index, "TimedLrc"));
            }
            let ghost v2 = actions@.map_values(|a: (String, UiAction)| action_view(a));
            assert(v2 =~= v1 + if c.has_synced_lyrics {
                seq![use_button("Timed LRC"@, index as nat, "TimedLrc"@)]
            } else {
                Seq::empty()
            });
            if c.has_translation {
                actions.push(use_action("Translation", index, "Translation"));
            }
            let ghost v3 = actions@.map_values(|a: (String, UiAction)| action_view(a));
            assert(v3 =~= v2 + if c.has_translation {
                seq![use_button("Translation"@, index as nat, "Translation"@)]
            } else {
                Seq::empty()
            });
            if c.has_romanization {
                actions.push(use_action("Romanization", index, "Romanization"));
            }
            let ghost v4 = actions@.map_values(|a: (String, UiAction)| action_view(a));
            assert(v4 =~= v3 + if c.has_romanization {
                seq![use_button("Romanization"@, index as nat, "Romanization"@)]
            } else {
                Seq::empty()
            });
        },
    }
    assert(actions@.map_values(|a: (String, UiAction)| action_view(a)) =~= spec_candidate_actions(
        index as nat,
        loaded,
        fetching,
    ));
    actions
}

pub open spec fn spec_candidate_detail(
    artist: Seq<char>,
    album: Seq<char>,
    duration: Seq<char>,
    loaded_lines: Option<nat>,
) -> Seq<char> {
    artist + (if trimmed(album).len() == 0 {
        Seq::empty()
    } else {
        " · "@ + album
    }) + " · "@ + duration + match loaded_lines {
        Some(n) => " · "@ + decimal(n) + " lines · loaded"@,
        None => " · metadata only"@,
    }
}

/// The line under a search result's title: the artist, the album when it
/// is not blank, the duration (already worded) and whether the lyrics are
/// loaded, with their line count.
pub fn candidate_detail(artist: &str, album: &str, duration: &str, loaded_lines: Option<usize>) -> (detail:
    String)
    ensures
        detail@ == spec_candidate_detail(
            artist@,
            album@,
            duration@,
            match loaded_lines {
                Some(n) => Some(n as nat),
                None => None,
            },
        ),
{
    let mut detail = owned(artist);
    let blank = trim_chars(&chars_of(album)).len() == 0;
    if !blank {
        push_str(&mut detail, " · ");
        push_str(&mut detail, album);
    }
    push_str(&mut detail, " · ");
    push_str(&mut detail, duration);
    match loaded_lines {
        Some(n) => {
            push_str(&mut detail, " · ");
            push_decimal(&mut detail, n as u64);
            push_str(&mut detail, " lines · loaded");
        },
        None => push_str(&mut detail, " · metadata only"),
    }
    detail
}


// ---------------------------------------------------------------------------
// The text the editor opens with
// ---------------------------------------------------------------------------

/// A saved lyrics file: its plain lines and its timed LRC, if any.
pub struct LyricsFile {
    pub lines: Vec<String>,
    pub timed_lrc: Option<String>,
}

/// What the song's stores hold that the editor can start from.
pub struct LyricsSources {
    pub file: Option<LyricsFile>,
    /// The lines of the saved LRC transcript: where each starts, in
    /// hundredths of a second, and its text.
    pub transcript_lines: Vec<(u64, String)>,
    /// The phrases of the saved chart: the phrase text and where its first
    /// word starts, in hundredths of a second.
    pub phrases: Vec<(String, u64)>,
}

pub open spec fn lrc_line(start: u64, text: Seq<char>) -> Seq<char> {
    "["@ + spec_lrc_timestamp(start as nat) + "]"@ + text
}

pub open spec fn transcript_texts(lines: Seq<(u64, String)>) -> Seq<Seq<char>> {
    lines.map_values(|l: (u64, String)| lrc_line(l.0, l.1@))
}

/// The chart's phrases as editor lines: blank phrases are left out, the
/// others trimmed, and stamped with their start in the timed mode.
pub open spec fn phrase_texts(phrases: Seq<(String, u64)>, timed: bool) -> Seq<Seq<char>>
    decreases phrases.len(),
{
    if phrases.len() == 0 {
        Seq::empty()
    } else {
        let rest = phrase_texts(phrases.drop_last(), timed);
        let (text, start) = phrases.last();
        let t = trimmed(text@);
        if t.len() == 0 {
            rest
        } else if timed {
            rest.push(lrc_line(start, t))
        } else {
            rest.push(t)
        }
    }
}

pub open spec fn spec_lyrics_text(mode: LyricsInputMode, sources: LyricsSources) -> Seq<char> {
    let fallback = if mode == LyricsInputMode::TimedLrc && sources.transcript_lines@.len() > 0 {
        joined(transcript_texts(sources.transcript_lines@), "\n"@)
    } else {
        joined(phrase_texts(sources.phrases@, mode == LyricsInputMode::TimedLrc), "\n"@)
    };
    match sources.file {
        Some(f) => if mode == LyricsInputMode::TimedLrc && f.timed_lrc is Some {
            f.timed_lrc->0@
        } else if mode == LyricsInputMode::Plain {
            joined(f.lines@.map_values(|l: String| l@), "\n"@)
        } else {
            fallback
        },
        None => fallback,
    }
}

/// The text the lyrics editor opens with: the saved file's timed LRC or
/// plain lines when they suit the mode; else, in the timed mode, the saved
/// LRC transcript; else the saved chart's phrases.
pub fn lyrics_text(mode: LyricsInputMode, sources: &LyricsSources) -> (text: String)
    ensures
        text@ == spec_lyrics_text(mode, *sources),
{
    let timed = match mode {
        LyricsInputMode::TimedLrc => true,
        _ => false,
    };
    let plain = match mode {
        LyricsInputMode::Plain => true,
        _ => false,
    };
    if let Some(file) = &sources.file {
        if timed {
            if let Some(lrc) = &file.timed_lrc {
                return owned(lrc.as_str());
            }
        }
        if plain {
            return join_strings(&file.lines, "\n");
        }
    }
    if timed && sources.transcript_lines.len() > 0 {
        let mut lines: Vec<String> = Vec::new();
        let mut i: usize = 0;
        while i < sources.transcript_lines.len()
            invariant
                i <= sources.transcript_lines.len(),
                lines.len() == i,
                forall|k: int|
                    0 <= k < i ==> (#[trigger] lines@[k])@ == lrc_line(
                        sources.transcript_lines@[k].0,
                        sources.transcript_lines@[k].1@,
                    ),
            decreases sources.transcript_lines.len() - i,
        {
            let (start, text) = &sources.transcript_lines[i];
            let mut line = owned("[");
            let stamp = format_lrc_centiseconds(*start);
            push_str(&mut line, stamp.as_str());
            push_str(&mut line, "]");
            push_str(&mut line, text.as_str());
            lines.push(line);
            i = i + 1;
        }
        assert(lines@.map_values(|l: String| l@) =~= transcript_texts(sources.transcript_lines@));
        return join_strings(&lines, "\n");
    }
    let mut lines: Vec<String> = Vec::new();
    let mut i: usize = 0;
    while i < sources.phrases.len()
        invariant
            i <= sources.phrases.len(),
            lines@.map_values(|l: String| l@) == phrase_texts(sources.phrases@.take(i as int), timed),
        decreases sources.phrases.len() - i,
    {
        proof {
            assert(sources.phrases@.take(i + 1).drop_last() =~= sources.phrases@.take(i as int));
            assert(sources.phrases@.take(i + 1).last() == sources.phrases@[i as int]);
        }
        let (text, start) = &sources.phrases[i];
        let t = trim_chars(&chars_of(text.as_str()));
        if t.len() > 0 {
            let ghost before = lines@;
            let line = if timed {
                let mut line = owned("[");
                let stamp = format_lrc_centiseconds(*start);
                push_str(&mut line, stamp.as_str());
                push_str(&mut line, "]");
                let body = string_of(&t);
                push_str(&mut line, body.as_str());
                line
            } else {
                string_of(&t)
            };
            lines.push(line);
            assert(lines@.map_values(|l: String| l@) =~= before.map_values(|l: String| l@).push(
                line@,
            ));
        }
        i = i + 1;
    }
    assert(sources.phrases@.take(sources.phrases.len() as int) =~= sources.phrases@);
    join_strings(&lines, "\n")
}

} // verus!
