//! Song detail route: the overview copy, analysis language, key shifting and
//! the actions the page offers.
use vstd::prelude::*;

use crate::settings::AnalysisQualityProfile;
use crate::text::{
    ascii_lowercase, ascii_uppercase, char_is_whitespace, chars_equal, chars_of, decimal,
    join_strings, joined, owned, push_decimal, push_str, replace_char, replace_chars, str_equal,
    string_of, to_ascii_lowercase, to_ascii_uppercase, is_white_space,
};
use crate::ui_api::{UiAction, UiCommand, UiDomain};

verus! {

/// The "Detected key" overview row: the tonic with its scale (or `Unknown`)
/// and the confidence, already written with two decimals.
pub open spec fn spec_detected_key_copy(
    tonic: Option<Seq<char>>,
    scale: Option<Seq<char>>,
    confidence: Seq<char>,
) -> Seq<char> {
    let name = match tonic {
        Some(t) => match scale {
            Some(sc) => t + " "@ + sc,
            None => t,
        },
        None => "Unknown"@,
    };
    name + " (confidence "@ + confidence + ")"@
}

pub fn detected_key_copy(tonic: Option<&str>, scale: Option<&str>, confidence: &str) -> (copy:
    String)
    ensures
        copy@ == spec_detected_key_copy(
            match tonic {
                Some(t) => Some(t@),
                None => None,
            },
            match scale {
                Some(s) => Some(s@),
                None => None,
            },
            confidence@,
        ),
{
    let mut copy = match tonic {
        Some(t) => {
            let mut name = owned(t);
            if let Some(sc) = scale {
                push_str(&mut name, " ");
                push_str(&mut name, sc);
            }
            name
        },
        None => owned("Unknown"),
    };
    push_str(&mut copy, " (confidence ");
    push_str(&mut copy, confidence);
    push_str(&mut copy, ")");
    copy
}

/// The "Musical BPM" overview row: `Unavailable` without a tempo; a tempo
/// without a beat grid is named as the BPM-only fallback. The tempo and the
/// confidence come already written (one and two decimals).
pub open spec fn spec_musical_bpm_copy(bpm: Option<Seq<char>>, confidence: Seq<char>, beats: nat) -> Seq<
    char,
> {
    match bpm {
        None => "Unavailable"@,
        Some(b) => b + " (confidence "@ + confidence + ") · "@ + if beats == 0 {
            "BPM-only, no beat grid"@
        } else {
            decimal(beats) + " beats"@
        },
    }
}

pub fn musical_bpm_copy(bpm: Option<&str>, confidence: &str, beats: usize) -> (copy: String)
    ensures
        copy@ == spec_musical_bpm_copy(
            match bpm {
                Some(b) => Some(b@),
                None => None,
            },
            confidence@,
            beats as nat,
        ),
{
    match bpm {
        None => owned("Unavailable"),
        Some(b) => {
            let mut copy = owned(b);
            push_str(&mut copy, " (confidence ");
            push_str(&mut copy, confidence);
            push_str(&mut copy, ") · ");
            if beats == 0 {
                push_str(&mut copy, "BPM-only, no beat grid");
            } else {
                push_decimal(&mut copy, beats as u64);
                push_str(&mut copy, " beats");
            }
            copy
        },
    }
}

/// The "Extra descriptors" overview row: `Not Applicable` when none were
/// measured, else danceability, dynamic range and loudness, already written
/// (two, one and one decimals).
pub open spec fn spec_extra_descriptors_copy(descriptors: Option<(Seq<char>, Seq<char>, Seq<char>)>) -> Seq<
    char,
> {
    match descriptors {
        None => "Not Applicable"@,
        Some((d, r, l)) => "Danceability "@ + d + " · Dynamic range "@ + r + " dB · Loudness "@ + l
            + " dB"@,
    }
}

pub fn extra_descriptors_copy(descriptors: Option<(&str, &str, &str)>) -> (copy: String)
    ensures
        copy@ == spec_extra_descriptors_copy(
            match descriptors {
                Some((d, r, l)) => Some((d@, r@, l@)),
                None => None,
            },
        ),
{
    match descriptors {
        None => owned("Not Applicable"),
        Some((d, r, l)) => {
            let mut copy = owned("Danceability ");
            push_str(&mut copy, d);
            push_str(&mut copy, " · Dynamic range ");
            push_str(&mut copy, r);
            push_str(&mut copy, " dB · Loudness ");
            push_str(&mut copy, l);
            push_str(&mut copy, " dB");
            copy
        },
    }
}

/// The Overview row for chart problems: omitted (`None`) when there is no
/// chart data, else `None`, `1 issue` or `<n> issues`.
pub open spec fn spec_chart_issue_count_copy(count: Option<usize>) -> Option<Seq<char>> {
    match count {
        None => None,
        Some(n) => Some(
            if n == 0 {
                "None"@
            } else if n == 1 {
                "1 issue"@
            } else {
                decimal(n as nat) + " issues"@
            },
        ),
    }
}

pub fn chart_issue_count_copy(count: Option<usize>) -> (copy: Option<String>)
    ensures
        match (copy, spec_chart_issue_count_copy(count)) {
            (Some(c), Some(s)) => c@ == s,
            (None, None) => true,
            _ => false,
        },
{
    match count {
        None => None,
        Some(n) => {
            if n == 0 {
                Some(owned("None"))
            } else if n == 1 {
                Some(owned("1 issue"))
            } else {
                let mut copy = String::new();
                push_decimal(&mut copy, n as u64);
                push_str(&mut copy, " issues");
                assert(copy@ =~= decimal(n as nat) + " issues"@);
                Some(copy)
            }
        },
    }
}

/// What changed between the authored chart and a newer candidate.
#[derive(Clone, Copy, Debug, PartialEq, Eq)]
pub struct CandidateChartSummary {
    pub authored_phrase_count: usize,
    pub authored_note_count: usize,
    pub candidate_phrase_count: usize,
    pub candidate_note_count: usize,
    pub lyrics_changed: bool,
    pub pitch_evidence_changed: bool,
}

/// Whether a newer candidate chart than the authored one exists.
#[derive(Clone, Copy, Debug, PartialEq, Eq)]
pub enum CandidateChartStatus {
    NotAuthoredYet,
    UpToDate,
    CandidateAvailable(CandidateChartSummary),
}

/// The names of the inputs that changed, in order.
pub open spec fn changed_inputs(summary: CandidateChartSummary) -> Seq<Seq<char>> {
    (if summary.lyrics_changed {
        seq!["lyrics"@]
    } else {
        Seq::empty()
    }) + (if summary.pitch_evidence_changed {
        seq!["pitch"@]
    } else {
        Seq::empty()
    })
}

pub open spec fn spec_candidate_availability_copy(status: CandidateChartStatus) -> Option<
    Seq<char>,
> {
    match status {
        CandidateChartStatus::NotAuthoredYet => None,
        CandidateChartStatus::UpToDate => Some("Up to date"@),
        CandidateChartStatus::CandidateAvailable(summary) => Some(
            "New candidate available ("@ + joined(changed_inputs(summary), " & "@) + " · "@
                + decimal(summary.candidate_note_count as nat) + " notes vs "@ + decimal(
                summary.authored_note_count as nat,
            ) + " authored)"@,
        ),
    }
}

/// The Overview row for candidate charts: omitted until something has been
/// authored, else whether a newer candidate exists and what changed.
pub fn candidate_availability_copy(status: &CandidateChartStatus) -> (copy: Option<String>)
    ensures
        match (copy, spec_candidate_availability_copy(*status)) {
            (Some(c), Some(s)) => c@ == s,
            (None, None) => true,
            _ => false,
        },
{
    match status {
        CandidateChartStatus::NotAuthoredYet => None,
        CandidateChartStatus::UpToDate => Some(owned("Up to date")),
        CandidateChartStatus::CandidateAvailable(summary) => {
            let mut changed: Vec<&str> = Vec::new();
            if summary.lyrics_changed {
                changed.push("lyrics");
            }
            if summary.pitch_evidence_changed {
                changed.push("pitch");
            }
            assert(changed@.map_values(|p: &str| p@) =~= changed_inputs(*summary));
            let joined_changes = crate::text::join(&changed, " & ");
            let mut copy = owned("New candidate available (");
            push_str(&mut copy, joined_changes.as_str());
            push_str(&mut copy, " · ");
            push_decimal(&mut copy, summary.candidate_note_count as u64);
            push_str(&mut copy, " notes vs ");
            push_decimal(&mut copy, summary.authored_note_count as u64);
            push_str(&mut copy, " authored)");
            Some(copy)
        },
    }
}

/// One finished analysis run, as the history keeps it.
#[derive(Debug, PartialEq, Eq)]
pub struct AnalysisRun {
    pub id: i64,
    pub file_hash: String,
    pub status: String,
    pub finished_at_ms: i64,
}

pub open spec fn is_completed_run_of(run: AnalysisRun, file_hash: Seq<char>) -> bool {
    run.file_hash@ == file_hash && run.status@ == "completed"@
}

/// The first run in `history` that completed for `file_hash`.
pub open spec fn first_completed_run(history: Seq<AnalysisRun>, file_hash: Seq<char>) -> Option<
    int,
>
    decreases history.len(),
{
    if history.len() == 0 {
        None
    } else if is_completed_run_of(history[0], file_hash) {
        Some(0)
    } else {
        match first_completed_run(history.drop_first(), file_hash) {
            Some(i) => Some(i + 1),
            None => None,
        }
    }
}

proof fn lemma_first_completed_run_skip(history: Seq<AnalysisRun>, file_hash: Seq<char>, i: int)
    requires
        0 <= i <= history.len(),
        forall|k: int| 0 <= k < i ==> !is_completed_run_of(#[trigger] history[k], file_hash),
    ensures
        first_completed_run(history, file_hash) == match first_completed_run(
            history.skip(i),
            file_hash,
        ) {
            Some(j) => Some(j + i),
            None => None,
        },
    decreases i,
{
    if i == 0 {
        assert(history.skip(0) =~= history);
    } else {
        let t = history.drop_first();
        assert forall|k: int| 0 <= k < i - 1 implies !is_completed_run_of(
            #[trigger] t[k],
            file_hash,
        ) by {
            assert(t[k] == history[k + 1]);
        }
        lemma_first_completed_run_skip(t, file_hash, i - 1);
        assert(t.skip(i - 1) =~= history.skip(i));
    }
}

/// Where the newest completed analysis of `file_hash` stands in `history`.
fn completed_run_index(history: &Vec<AnalysisRun>, file_hash: &str) -> (found: Option<usize>)
    ensures
        match found {
            Some(j) => first_completed_run(history@, file_hash@) == Some(j as int) && j
                < history@.len(),
            None => first_completed_run(history@, file_hash@) is None,
        },
{
    let wanted = chars_of(file_hash);
    let completed = chars_of("completed");
    let mut i: usize = 0;
    while i < history.len()
        invariant
            i <= history.len(),
            wanted@ == file_hash@,
            completed@ == "completed"@,
            forall|k: int| 0 <= k < i ==> !is_completed_run_of(#[trigger] history@[k], file_hash@),
        decreases history.len() - i,
    {
        let run = &history[i];
        let hash = chars_of(run.file_hash.as_str());
        let status = chars_of(run.status.as_str());
        if chars_equal(&hash, &wanted) && chars_equal(&status, &completed) {
            proof {
                lemma_first_completed_run_skip(history@, file_hash@, i as int);
                assert(history@.skip(i as int)[0] == history@[i as int]);
            }
            return Some(i);
        }
        i = i + 1;
    }
    proof {
        lemma_first_completed_run_skip(history@, file_hash@, history.len() as int);
        assert(history@.skip(history.len() as int).len() == 0);
    }
    None
}

/// When the most recent completed analysis of `file_hash` finished. The
/// history is ordered newest first, so the first completed run is the most
/// recent one; failed runs and other songs' runs are passed over.
pub fn last_successful_run(history: &Vec<AnalysisRun>, file_hash: &str) -> (finished: Option<i64>)
    ensures
        match first_completed_run(history@, file_hash@) {
            Some(i) => finished == Some(history@[i].finished_at_ms),
            None => finished is None,
        },
{
    match completed_run_index(history, file_hash) {
        Some(i) => Some(history[i].finished_at_ms),
        None => None,
    }
}

/// The id of the newest completed analysis of `file_hash`, the one the
/// song's "view analysis" opens; failed runs and other songs' runs are
/// passed over.
pub fn completed_analysis_run_id(history: &Vec<AnalysisRun>, file_hash: &str) -> (id: Option<i64>)
    ensures
        match first_completed_run(history@, file_hash@) {
            Some(i) => id == Some(history@[i].id),
            None => id is None,
        },
{
    match completed_run_index(history, file_hash) {
        Some(i) => Some(history[i].id),
        None => None,
    }
}

/// What a new analysis produces by default.
#[derive(Clone, Copy, Debug, PartialEq, Eq)]
pub enum AnalysisDefaultTarget {
    FullCandidate,
    Transcript,
    Alignment,
    PitchEvidence,
    Instrumental,
}

/// A song's own analysis settings; `None` fields follow the global defaults.
#[derive(Clone, Copy, Debug, PartialEq, Eq)]
pub struct AnalysisProfileOverride {
    pub quality_profile: Option<AnalysisQualityProfile>,
    pub default_target: Option<AnalysisDefaultTarget>,
}

pub open spec fn spec_quality_name(q: AnalysisQualityProfile) -> Seq<char> {
    match q {
        AnalysisQualityProfile::Fast => "Fast"@,
        AnalysisQualityProfile::Balanced => "Balanced"@,
        AnalysisQualityProfile::Maximum => "Maximum"@,
    }
}

pub open spec fn spec_target_name(t: AnalysisDefaultTarget) -> Seq<char> {
    match t {
        AnalysisDefaultTarget::FullCandidate => "Candidate chart"@,
        AnalysisDefaultTarget::Transcript => "Transcript"@,
        AnalysisDefaultTarget::Alignment => "Alignment"@,
        AnalysisDefaultTarget::PitchEvidence => "PitchEvidence"@,
        AnalysisDefaultTarget::Instrumental => "Instrumental"@,
    }
}

/// The quality in effect and where it comes from.
pub open spec fn effective_quality(
    global: AnalysisQualityProfile,
    song: Option<AnalysisProfileOverride>,
) -> (AnalysisQualityProfile, Seq<char>) {
    match song {
        Some(profile) => match profile.quality_profile {
            Some(q) => (q, "SONG"@),
            None => (global, "GLOBAL"@),
        },
        None => (global, "GLOBAL"@),
    }
}

/// The target in effect and where it comes from.
pub open spec fn effective_target(
    global: AnalysisDefaultTarget,
    song: Option<AnalysisProfileOverride>,
) -> (AnalysisDefaultTarget, Seq<char>) {
    match song {
        Some(profile) => match profile.default_target {
            Some(t) => (t, "SONG"@),
            None => (global, "GLOBAL"@),
        },
        None => (global, "GLOBAL"@),
    }
}

pub open spec fn spec_analysis_profile_summary(
    global_quality: AnalysisQualityProfile,
    global_target: AnalysisDefaultTarget,
    song: Option<AnalysisProfileOverride>,
) -> Seq<char> {
    let (q, qs) = effective_quality(global_quality, song);
    let (t, ts) = effective_target(global_target, song);
    "Quality: "@ + spec_quality_name(q) + " · Source: "@ + qs + ". Target: "@ + spec_target_name(t)
        + " · Source: "@ + ts
        + ". This row is read-only. Edit defaults in Settings > Analysis; use Plan Preview for one run. Existing chart data changes only after re-analysis."@
}

fn quality_name(q: AnalysisQualityProfile) -> (name: &'static str)
    ensures
        name@ == spec_quality_name(q),
{
    match q {
        AnalysisQualityProfile::Fast => "Fast",
        AnalysisQualityProfile::Balanced => "Balanced",
        AnalysisQualityProfile::Maximum => "Maximum",
    }
}

fn target_name(t: AnalysisDefaultTarget) -> (name: &'static str)
    ensures
        name@ == spec_target_name(t),
{
    match t {
        AnalysisDefaultTarget::FullCandidate => "Candidate chart",
        AnalysisDefaultTarget::Transcript => "Transcript",
        AnalysisDefaultTarget::Alignment => "Alignment",
        AnalysisDefaultTarget::PitchEvidence => "PitchEvidence",
        AnalysisDefaultTarget::Instrumental => "Instrumental",
    }
}

/// The read-only profile row: the quality and target in effect for a song,
/// each labelled with whether it is the song's own setting or the global
/// default.
pub fn analysis_profile_summary(
    global_quality: AnalysisQualityProfile,
    global_target: AnalysisDefaultTarget,
    song: Option<&AnalysisProfileOverride>,
) -> (summary: String)
    ensures
        summary@ == spec_analysis_profile_summary(
            global_quality,
            global_target,
            match song {
                Some(p) => Some(*p),
                None => None,
            },
        ),
{
    let (quality, quality_source) = match song {
        Some(profile) => match profile.quality_profile {
            Some(q) => (q, "SONG"),
            None => (global_quality, "GLOBAL"),
        },
        None => (global_quality, "GLOBAL"),
    };
    let (target, target_source) = match song {
        Some(profile) => match profile.default_target {
            Some(t) => (t, "SONG"),
            None => (global_target, "GLOBAL"),
        },
        None => (global_target, "GLOBAL"),
    };
    let mut summary = owned("Quality: ");
    push_str(&mut summary, quality_name(quality));
    push_str(&mut summary, " · Source: ");
    push_str(&mut summary, quality_source);
    push_str(&mut summary, ". Target: ");
    push_str(&mut summary, target_name(target));
    push_str(&mut summary, " · Source: ");
    push_str(&mut summary, target_source);
    push_str(
        &mut summary,
        ". This row is read-only. Edit defaults in Settings > Analysis; use Plan Preview for one run. Existing chart data changes only after re-analysis.",
    );
    summary
}

/// The button that opens a song's analysis view.
pub fn view_song_analysis_action(file_hash: &str) -> (action: UiAction)
    ensures
        action.0.domain == UiDomain::Analysis,
        action.0.variant@ == "OpenSongAnalysis"@,
        action.0.payload@.len() == 1,
        action.0.payload@[0]@ == file_hash@,
{
    UiAction(UiCommand::with_value(UiDomain::Analysis, "OpenSongAnalysis", file_hash))
}

/// What a lyrics search result offers.
#[derive(Clone, Copy, Debug, PartialEq, Eq)]
pub struct LyricsCandidateFlags {
    pub has_timed_lyrics: bool,
    pub has_translation: bool,
    pub has_romanization: bool,
}

pub open spec fn spec_candidate_badges(flags: LyricsCandidateFlags) -> Seq<Seq<char>> {
    let badges = (if flags.has_timed_lyrics {
        seq!["TIMED"@]
    } else {
        Seq::empty()
    }) + (if flags.has_translation {
        seq!["TRANSLATION"@]
    } else {
        Seq::empty()
    }) + (if flags.has_romanization {
        seq!["ROMANIZATION"@]
    } else {
        Seq::empty()
    });
    if badges.len() == 0 {
        seq!["PLAIN"@]
    } else {
        badges
    }
}

/// The badges of a lyrics candidate, joined by ` / `; a candidate with
/// none of the extras is `PLAIN`.
pub fn lyrics_candidate_badges(flags: &LyricsCandidateFlags) -> (badges: String)
    ensures
        badges@ == joined(spec_candidate_badges(*flags), " / "@),
{
    let mut list: Vec<&str> = Vec::new();
    if flags.has_timed_lyrics {
        list.push("TIMED");
    }
    if flags.has_translation {
        list.push("TRANSLATION");
    }
    if flags.has_romanization {
        list.push("ROMANIZATION");
    }
    if list.len() == 0 {
        list.push("PLAIN");
    }
    assert(list@.map_values(|p: &str| p@) =~= spec_candidate_badges(*flags));
    crate::text::join(&list, " / ")
}

/// One lyrics provider's search state.
pub struct LyricsProviderView {
    /// The provider's display name.
    pub name: String,
    /// The error the provider reported, if any.
    pub error: Option<String>,
    /// How many candidates it returned.
    pub candidates: usize,
}

pub open spec fn spec_lyrics_provider_status(p: LyricsProviderView, searching: bool) -> (
    Seq<char>,
    bool,
) {
    match p.error {
        Some(e) => (p.name@ + " · ERROR · "@ + e@, true),
        None => if searching {
            (p.name@ + " · SEARCHING"@, false)
        } else {
            (
                p.name@ + " · "@ + decimal(p.candidates as nat) + " candidate"@ + if p.candidates
                    == 1 {
                    Seq::empty()
                } else {
                    "s"@
                },
                false,
            )
        },
    }
}

/// A provider's status line and whether it is an error: a reported error
/// wins, then an ongoing search, then the number of candidates.
pub fn lyrics_provider_status(provider: &LyricsProviderView, searching: bool) -> (status: (
    String,
    bool,
))
    ensures
        (status.0@, status.1) == spec_lyrics_provider_status(*provider, searching),
{
    let mut line = owned(provider.name.as_str());
    match &provider.error {
        Some(error) => {
            push_str(&mut line, " · ERROR · ");
            push_str(&mut line, error.as_str());
            (line, true)
        },
        None => {
            if searching {
                push_str(&mut line, " · SEARCHING");
            } else {
                push_str(&mut line, " · ");
                push_decimal(&mut line, provider.candidates as u64);
                push_str(&mut line, " candidate");
                if provider.candidates != 1 {
                    push_str(&mut line, "s");
                }
            }
            (line, false)
        },
    }
}

/// The analysis languages the studio offers: code and label.
pub open spec fn spec_language_options() -> Seq<(&'static str, &'static str)> {
    seq![
        ("auto", "Automatic detection"),
        ("ja", "Japanese"),
        ("en", "English"),
        ("zh", "Chinese"),
        ("ko", "Korean"),
        ("es", "Spanish"),
        ("fr", "French"),
        ("de", "German"),
        ("it", "Italian"),
        ("pt", "Portuguese"),
        ("ru", "Russian"),
        ("id", "Indonesian"),
        ("vi", "Vietnamese"),
        ("th", "Thai"),
        ("tr", "Turkish"),
        ("pl", "Polish"),
        ("uk", "Ukrainian"),
        ("nl", "Dutch"),
        ("sv", "Swedish"),
        ("ar", "Arabic"),
        ("hi", "Hindi"),
    ]
}

/// The analysis languages the studio offers: code and label.
pub fn analysis_language_options() -> (options: Vec<(&'static str, &'static str)>)
    ensures
        options@ == spec_language_options(),
{
    let options = vec![
        ("auto", "Automatic detection"),
        ("ja", "Japanese"),
        ("en", "English"),
        ("zh", "Chinese"),
        ("ko", "Korean"),
        ("es", "Spanish"),
        ("fr", "French"),
        ("de", "German"),
        ("it", "Italian"),
        ("pt", "Portuguese"),
        ("ru", "Russian"),
        ("id", "Indonesian"),
        ("vi", "Vietnamese"),
        ("th", "Thai"),
        ("tr", "Turkish"),
        ("pl", "Polish"),
        ("uk", "Ukrainian"),
        ("nl", "Dutch"),
        ("sv", "Swedish"),
        ("ar", "Arabic"),
        ("hi", "Hindi"),
    ];
    assert(options@ =~= spec_language_options());
    options
}

/// Whether `code` is one of the offered language codes.
pub open spec fn is_offered_language(code: Seq<char>) -> bool {
    exists|i: int| 0 <= i < spec_language_options().len() && #[trigger] spec_language_options()[i].0@ == code
}

/// How many characters at the front of `s` are white space.
pub open spec fn leading_space(s: Seq<char>) -> nat
    decreases s.len(),
{
    if s.len() > 0 && is_white_space(s[0]) {
        1 + leading_space(s.drop_first())
    } else {
        0
    }
}

/// How many characters at the end of `s` are white space.
pub open spec fn trailing_space(s: Seq<char>) -> nat
    decreases s.len(),
{
    if s.len() > 0 && is_white_space(s.last()) {
        1 + trailing_space(s.drop_last())
    } else {
        0
    }
}

/// `s` without leading and trailing white space.
pub open spec fn trimmed(s: Seq<char>) -> Seq<char> {
    let rest = s.skip(leading_space(s) as int);
    rest.take(rest.len() - trailing_space(rest))
}

proof fn lemma_leading_space(s: Seq<char>, i: int)
    requires
        0 <= i <= s.len(),
        forall|k: int| 0 <= k < i ==> is_white_space(#[trigger] s[k]),
        i == s.len() || !is_white_space(s[i]),
    ensures
        leading_space(s) == i,
    decreases i,
{
    if i > 0 {
        let t = s.drop_first();
        assert forall|k: int| 0 <= k < i - 1 implies is_white_space(#[trigger] t[k]) by {
            assert(t[k] == s[k + 1]);
        }
        lemma_leading_space(t, i - 1);
    }
}

proof fn lemma_trailing_space(s: Seq<char>, j: int)
    requires
        0 <= j <= s.len(),
        forall|k: int| j <= k < s.len() ==> is_white_space(#[trigger] s[k]),
        j == 0 || !is_white_space(s[j - 1]),
    ensures
        trailing_space(s) == s.len() - j,
    decreases s.len() - j,
{
    if j < s.len() {
        let t = s.drop_last();
        assert forall|k: int| j <= k < t.len() implies is_white_space(#[trigger] t[k]) by {
            assert(t[k] == s[k]);
        }
        lemma_trailing_space(t, j);
    }
}

/// `s` without leading and trailing white space.
pub fn trim_chars(s: &Vec<char>) -> (t: Vec<char>)
    ensures
        t@ == trimmed(s@),
{
    let n = s.len();
    let mut start: usize = 0;
    while start < n && char_is_whitespace(s[start])
        invariant
            n == s.len(),
            start <= n,
            forall|k: int| 0 <= k < start ==> is_white_space(#[trigger] s@[k]),
        decreases n - start,
    {
        start = start + 1;
    }
    proof {
        lemma_leading_space(s@, start as int);
    }
    let mut end: usize = n;
    while end > start && char_is_whitespace(s[end - 1])
        invariant
            n == s.len(),
            start <= end <= n,
            forall|k: int| end <= k < n ==> is_white_space(#[trigger] s@[k]),
        decreases end - start,
    {
        end = end - 1;
    }
    let ghost rest = s@.skip(start as int);
    proof {
        assert forall|k: int| end - start <= k < rest.len() implies is_white_space(
            #[trigger] rest[k],
        ) by {
            assert(rest[k] == s@[start + k]);
        }
        if end > start {
            assert(rest[end - start - 1] == s@[end - 1]);
        }
        lemma_trailing_space(rest, end - start);
    }
    let mut t: Vec<char> = Vec::new();
    let mut i: usize = start;
    while i < end
        invariant
            start <= i <= end <= n,
            n == s.len(),
            t@ == s@.subrange(start as int, i as int),
        decreases end - i,
    {
        t.push(s[i]);
        i = i + 1;
        assert(t@ =~= s@.subrange(start as int, i as int));
    }
    assert(t@ =~= rest.take(rest.len() - trailing_space(rest)));
    t
}

/// The language code as typed, normalised: trimmed, ASCII-lowered and with
/// `_` written as `-`.
pub open spec fn normalized_language(language: Seq<char>) -> Seq<char> {
    replace_char(ascii_lowercase(trimmed(language)), '_', '-')
}

pub open spec fn spec_canonical_analysis_language(language: Seq<char>) -> Seq<char> {
    let l = normalized_language(language);
    if l == "jp"@ || l == "jpn"@ {
        "ja"@
    } else if l == "eng"@ {
        "en"@
    } else if l == "kor"@ {
        "ko"@
    } else if l == "chi"@ || l == "zho"@ || l == "cn"@ || l == "zh-cn"@ || l == "zh-tw"@ {
        "zh"@
    } else if is_offered_language(l) {
        l
    } else {
        "auto"@
    }
}

/// Whatever is typed, the analysis language is one the studio offers:
/// known aliases map to their codes and anything unknown to `auto`.
pub proof fn law_canonical_language_is_offered(language: Seq<char>)
    ensures
        is_offered_language(spec_canonical_analysis_language(language)),
{
    let options = spec_language_options();
    assert(options[0].0@ == "auto"@);
    assert(options[1].0@ == "ja"@);
    assert(options[2].0@ == "en"@);
    assert(options[3].0@ == "zh"@);
    assert(options[4].0@ == "ko"@);
}

/// Every character of `s` is a lower-case ASCII letter.
pub open spec fn all_lower_letters(s: Seq<char>) -> bool {
    forall|i: int| 0 <= i < s.len() ==> 'a' <= #[trigger] s[i] && s[i] <= 'z'
}

proof fn lemma_lower_letters_are_normalized(s: Seq<char>)
    requires
        all_lower_letters(s),
    ensures
        normalized_language(s) == s,
{
    lemma_leading_space(s, 0);
    let rest = s.skip(leading_space(s) as int);
    assert(rest =~= s);
    lemma_trailing_space(rest, rest.len() as int);
    assert(trimmed(s) =~= s);
    assert(ascii_lowercase(s) =~= s);
    assert(replace_char(s, '_', '-') =~= s);
}

/// Every language code the studio offers is kept as it is.
pub proof fn law_offered_codes_are_canonical(i: int)
    requires
        0 <= i < spec_language_options().len(),
    ensures
        spec_canonical_analysis_language(spec_language_options()[i].0@)
            == spec_language_options()[i].0@,
{
    let options = spec_language_options();
    let c = options[i].0;
    reveal_strlit("jp");
    reveal_strlit("jpn");
    reveal_strlit("eng");
    reveal_strlit("kor");
    reveal_strlit("chi");
    reveal_strlit("zho");
    reveal_strlit("cn");
    reveal_strlit("zh-cn");
    reveal_strlit("zh-tw");
    if i == 0 {
        reveal_strlit("auto");
    } else if i == 1 {
        reveal_strlit("ja");
    } else if i == 2 {
        reveal_strlit("en");
    } else if i == 3 {
        reveal_strlit("zh");
    } else if i == 4 {
        reveal_strlit("ko");
    } else if i == 5 {
        reveal_strlit("es");
    } else if i == 6 {
        reveal_strlit("fr");
    } else if i == 7 {
        reveal_strlit("de");
    } else if i == 8 {
        reveal_strlit("it");
    } else if i == 9 {
        reveal_strlit("pt");
    } else if i == 10 {
        reveal_strlit("ru");
    } else if i == 11 {
        reveal_strlit("id");
    } else if i == 12 {
        reveal_strlit("vi");
    } else if i == 13 {
        reveal_strlit("th");
    } else if i == 14 {
        reveal_strlit("tr");
    } else if i == 15 {
        reveal_strlit("pl");
    } else if i == 16 {
        reveal_strlit("uk");
    } else if i == 17 {
        reveal_strlit("nl");
    } else if i == 18 {
        reveal_strlit("sv");
    } else if i == 19 {
        reveal_strlit("ar");
    } else {
        reveal_strlit("hi");
    }
    assert(all_lower_letters(c@));
    lemma_lower_letters_are_normalized(c@);
    assert(is_offered_language(c@));
}

/// Canonicalising a language twice changes nothing: what the studio
/// stores is already a code it keeps as it is.
pub proof fn law_canonical_language_is_stable(language: Seq<char>)
    ensures
        spec_canonical_analysis_language(spec_canonical_analysis_language(language))
            == spec_canonical_analysis_language(language),
{
    let options = spec_language_options();
    let code = spec_canonical_analysis_language(language);
    law_canonical_language_is_offered(language);
    let i = choose|i: int| 0 <= i < options.len() && #[trigger] options[i].0@ == code;
    law_offered_codes_are_canonical(i);
}

fn is_one_of(value: &Vec<char>, a: &str) -> (b: bool)
    ensures
        b == (value@ == a@),
{
    let other = chars_of(a);
    chars_equal(value, &other)
}

/// The language code that analysis uses for what the operator typed:
/// common aliases map to their two-letter code, offered codes are kept and
/// anything else means automatic detection.
#[verifier::loop_isolation(false)]
pub fn canonical_analysis_language(language: &str) -> (code: String)
    ensures
        code@ == spec_canonical_analysis_language(language@),
{
    let raw = chars_of(language);
    let trimmed_chars = trim_chars(&raw);
    let lower = to_ascii_lowercase(&trimmed_chars);
    let l = replace_chars(&lower, '_', '-');
    if is_one_of(&l, "jp") || is_one_of(&l, "jpn") {
        owned("ja")
    } else if is_one_of(&l, "eng") {
        owned("en")
    } else if is_one_of(&l, "kor") {
        owned("ko")
    } else if is_one_of(&l, "chi") || is_one_of(&l, "zho") || is_one_of(&l, "cn") || is_one_of(
        &l,
        "zh-cn",
    ) || is_one_of(&l, "zh-tw") {
        owned("zh")
    } else {
        let options = analysis_language_options();
        let mut i: usize = 0;
        while i < options.len()
            invariant
                i <= options.len(),
                options@ == spec_language_options(),
                forall|k: int| 0 <= k < i ==> spec_language_options()[k].0@ != l@,
            decreases options.len() - i,
        {
            let (code, _) = options[i];
            if is_one_of(&l, code) {
                assert(spec_language_options()[i as int].0@ == l@);
                return string_of(&l);
            }
            i = i + 1;
        }
        owned("auto")
    }
}

pub open spec fn first_language_label(options: Seq<(&'static str, &'static str)>, code: Seq<char>) -> Option<
    &'static str,
>
    decreases options.len(),
{
    if options.len() == 0 {
        None
    } else if options[0].0@ == code {
        Some(options[0].1)
    } else {
        first_language_label(options.drop_first(), code)
    }
}

pub open spec fn spec_analysis_language_label(code: Seq<char>) -> &'static str {
    match first_language_label(spec_language_options(), code) {
        Some(label) => label,
        None => "Automatic detection",
    }
}

/// The label of an analysis language code; unknown codes read as
/// automatic detection.
pub fn analysis_language_label(language: &str) -> (label: &'static str)
    ensures
        label == spec_analysis_language_label(language@),
{
    let options = analysis_language_options();
    let mut i: usize = 0;
    assert(options@.skip(0) =~= options@);
    while i < options.len()
        invariant
            i <= options.len(),
            options@ == spec_language_options(),
            first_language_label(spec_language_options(), language@) == first_language_label(
                options@.skip(i as int),
                language@,
            ),
        decreases options.len() - i,
    {
        let (code, label) = options[i];
        proof {
            assert(options@.skip(i as int).drop_first() =~= options@.skip(i + 1));
            assert(options@.skip(i as int)[0] == (code, label));
        }
        if str_equal(code, language) {
            return label;
        }
        i = i + 1;
    }
    "Automatic detection"
}

/// What the Overview panel reads about a song. Values that are measured
/// with fractions (key confidence, tempo, loudness) arrive already worded.
pub struct SongOverviewFacts {
    /// The media file's extension, when it has a readable one.
    pub extension: Option<String>,
    pub is_video: bool,
    pub is_analyzed: bool,
    /// Where the lyrics came from, when a transcript exists.
    pub transcript_source: Option<String>,
    /// Whether the song has its own analysis profile.
    pub has_profile_override: bool,
    /// When the last successful analysis finished, already worded.
    pub last_successful_run: Option<String>,
    pub candidate_status: CandidateChartStatus,
    /// How many problems the chart has, when there is chart data.
    pub chart_problem_count: Option<usize>,
    /// The detected key, tempo and descriptor rows, when music analysis ran.
    pub music_analysis: Option<(String, String, String)>,
    pub has_vocal_stem: bool,
    pub has_instrumental_stem: bool,
    pub has_pitch_track: bool,
    pub no_stems: bool,
    pub authoring_ready: bool,
    pub authoring_missing: Vec<String>,
}

pub open spec fn stems_copy(vocal: bool, instrumental: bool, no_stems: bool) -> Seq<char> {
    if vocal && instrumental {
        "Both available"@
    } else if vocal {
        "Vocal only"@
    } else if instrumental {
        "Instrumental only"@
    } else if no_stems {
        "Original mix"@
    } else {
        "Pending"@
    }
}

pub open spec fn optional_row(label: &'static str, value: Option<Seq<char>>) -> Seq<
    (&'static str, Seq<char>),
> {
    match value {
        Some(v) => seq![(label, v)],
        None => Seq::empty(),
    }
}

pub open spec fn overview_head(f: SongOverviewFacts) -> Seq<(&'static str, Seq<char>)> {
    let media = ascii_uppercase(
        match f.extension {
            Some(e) => e@,
            None => "media"@,
        },
    );
    seq![
        ("Media", media + " · "@ + if f.is_video {
            "Video"@
        } else {
            "Audio"@
        }),
        ("Analysis", if f.is_analyzed {
            "Analyzed"@
        } else {
            "Not analyzed"@
        }),
        ("Active analysis profile", if f.has_profile_override {
            "Song override"@
        } else {
            "Global defaults"@
        }),
        ("Lyrics source", match f.transcript_source {
            Some(t) => t@,
            None => "Not generated"@,
        }),
        ("Last successful run", match f.last_successful_run {
            Some(t) => t@,
            None => "None yet"@,
        }),
    ]
}

pub open spec fn music_rows(f: SongOverviewFacts) -> Seq<(&'static str, Seq<char>)> {
    match f.music_analysis {
        Some((key, bpm, descriptors)) => seq![
            ("Detected key", key@),
            ("Musical BPM", bpm@),
            ("Extra descriptors", descriptors@),
        ],
        None => Seq::empty(),
    }
}

pub open spec fn chart_assets_copy(f: SongOverviewFacts) -> Seq<char> {
    if f.authoring_ready {
        "Complete"@
    } else if f.authoring_missing@.len() == 0 {
        "Waiting for chart"@
    } else {
        replace_char(joined(f.authoring_missing@.map_values(|m: String| m@), " · "@), '_', ' ')
    }
}

pub open spec fn overview_tail(f: SongOverviewFacts) -> Seq<(&'static str, Seq<char>)> {
    seq![
        ("Vocal / instrumental stems", stems_copy(
            f.has_vocal_stem,
            f.has_instrumental_stem,
            f.no_stems,
        )),
        ("Pitch evidence", if f.has_pitch_track {
            "Available"@
        } else {
            "Pending"@
        }),
        ("Chart assets", chart_assets_copy(f)),
        ("Export", if f.authoring_ready {
            "UTZ · UltraStar"@
        } else {
            "Waiting for chart"@
        }),
    ]
}

/// The Overview rows, in order. Candidate availability, chart issues and
/// the music-analysis rows appear only when there is something to say.
pub open spec fn spec_song_overview_rows(f: SongOverviewFacts) -> Seq<(&'static str, Seq<char>)> {
    overview_head(f) + optional_row(
        "Candidate availability",
        spec_candidate_availability_copy(f.candidate_status),
    ) + optional_row("Chart issues", spec_chart_issue_count_copy(f.chart_problem_count))
        + music_rows(f) + overview_tail(f)
}

pub open spec fn row_views(rows: Seq<(&'static str, String)>) -> Seq<(&'static str, Seq<char>)> {
    rows.map_values(|r: (&'static str, String)| (r.0, r.1@))
}

fn push_row(rows: &mut Vec<(&'static str, String)>, label: &'static str, value: String)
    ensures
        row_views(final(rows)@) == row_views(old(rows)@).push((label, value@)),
{
    let ghost v = value@;
    rows.push((label, value));
    assert(row_views(rows@) =~= row_views(old(rows)@).push((label, v)));
}

fn push_overview_head(rows: &mut Vec<(&'static str, String)>, facts: &SongOverviewFacts)
    ensures
        row_views(final(rows)@) == row_views(old(rows)@) + overview_head(*facts),
{
    let ext = match &facts.extension {
        Some(e) => chars_of(e.as_str()),
        None => chars_of("media"),
    };
    let mut media = string_of(&to_ascii_uppercase(&ext));
    push_str(&mut media, " · ");
    push_str(&mut media, if facts.is_video { "Video" } else { "Audio" });
    push_row(rows, "Media", media);
    push_row(rows, "Analysis", owned(if facts.is_analyzed { "Analyzed" } else { "Not analyzed" }));
    push_row(
        rows,
        "Active analysis profile",
        owned(if facts.has_profile_override { "Song override" } else { "Global defaults" }),
    );
    push_row(
        rows,
        "Lyrics source",
        match &facts.transcript_source {
            Some(t) => owned(t.as_str()),
            None => owned("Not generated"),
        },
    );
    push_row(
        rows,
        "Last successful run",
        match &facts.last_successful_run {
            Some(t) => owned(t.as_str()),
            None => owned("None yet"),
        },
    );
    assert(row_views(rows@) =~= row_views(old(rows)@) + overview_head(*facts));
}

fn push_overview_tail(rows: &mut Vec<(&'static str, String)>, facts: &SongOverviewFacts)
    ensures
        row_views(final(rows)@) == row_views(old(rows)@) + overview_tail(*facts),
{
    let stems = if facts.has_vocal_stem && facts.has_instrumental_stem {
        "Both available"
    } else if facts.has_vocal_stem {
        "Vocal only"
    } else if facts.has_instrumental_stem {
        "Instrumental only"
    } else if facts.no_stems {
        "Original mix"
    } else {
        "Pending"
    };
    push_row(rows, "Vocal / instrumental stems", owned(stems));
    push_row(rows, "Pitch evidence", owned(if facts.has_pitch_track { "Available" } else { "Pending" }));
    let assets = if facts.authoring_ready {
        owned("Complete")
    } else if facts.authoring_missing.len() == 0 {
        owned("Waiting for chart")
    } else {
        let joined_missing = join_strings(&facts.authoring_missing, " · ");
        let chars = chars_of(joined_missing.as_str());
        string_of(&replace_chars(&chars, '_', ' '))
    };
    push_row(rows, "Chart assets", assets);
    push_row(
        rows,
        "Export",
        owned(if facts.authoring_ready { "UTZ · UltraStar" } else { "Waiting for chart" }),
    );
    assert(row_views(rows@) =~= row_views(old(rows)@) + overview_tail(*facts));
}

/// The rows of the song's Overview panel.
pub fn song_overview_rows(facts: &SongOverviewFacts) -> (rows: Vec<(&'static str, String)>)
    ensures
        row_views(rows@) == spec_song_overview_rows(*facts),
{
    let mut rows: Vec<(&'static str, String)> = Vec::new();
    assert(row_views(rows@) =~= Seq::<(&'static str, Seq<char>)>::empty());
    push_overview_head(&mut rows, facts);
    let ghost a = row_views(rows@);
    if let Some(copy) = candidate_availability_copy(&facts.candidate_status) {
        push_row(&mut rows, "Candidate availability", copy);
    }
    let ghost b = row_views(rows@);
    assert(b =~= a + optional_row(
        "Candidate availability",
        spec_candidate_availability_copy(facts.candidate_status),
    ));
    if let Some(copy) = chart_issue_count_copy(facts.chart_problem_count) {
        push_row(&mut rows, "Chart issues", copy);
    }
    let ghost c = row_views(rows@);
    assert(c =~= b + optional_row("Chart issues", spec_chart_issue_count_copy(facts.chart_problem_count)));
    if let Some((key, bpm, descriptors)) = &facts.music_analysis {
        push_row(&mut rows, "Detected key", owned(key.as_str()));
        push_row(&mut rows, "Musical BPM", owned(bpm.as_str()));
        push_row(&mut rows, "Extra descriptors", owned(descriptors.as_str()));
    }
    let ghost d = row_views(rows@);
    assert(d =~= c + music_rows(*facts));
    push_overview_tail(&mut rows, facts);
    assert(row_views(rows@) =~= spec_song_overview_rows(*facts));
    rows
}

/// How far a song has come towards a finished chart.
#[derive(Clone, Copy, Debug, PartialEq, Eq)]
pub enum SongAuthoringState {
    InProgress,
    RetryFailedNode,
    AnalyzeSong,
    OpenEditor,
    FixChartIssues,
    EditChart,
}

/// Where a song stands in the analysis queue.
#[derive(Clone, Copy, Debug, PartialEq, Eq)]
pub enum QueuedStatus {
    Queued,
    Analyzing(u64),
    Failed,
}

/// The primary action's label and the button's command.
pub open spec fn spec_song_primary_action(
    state: Option<SongAuthoringState>,
    queued: Option<QueuedStatus>,
    runtime_ready: bool,
) -> (Seq<char>, UiDomain, Seq<char>, bool) {
    match state {
        Some(SongAuthoringState::InProgress) => (
            match queued {
                Some(QueuedStatus::Queued) => "Queued for analysis"@,
                Some(QueuedStatus::Analyzing(p)) => "Analyzing · "@ + decimal(p as nat) + "%"@,
                _ => "Analyzing"@,
            },
            UiDomain::App,
            "ToggleActivity"@,
            false,
        ),
        Some(SongAuthoringState::RetryFailedNode) => (
            "Retry failed analysis"@,
            UiDomain::Library,
            "AnalyzeSong"@,
            true,
        ),
        Some(SongAuthoringState::OpenEditor) => ("Open editor"@, UiDomain::Library, "OpenEditor"@, true),
        Some(SongAuthoringState::FixChartIssues) => (
            "Fix chart issues"@,
            UiDomain::Library,
            "OpenEditor"@,
            true,
        ),
        Some(SongAuthoringState::EditChart) => ("Edit chart"@, UiDomain::Library, "OpenEditor"@, true),
        _ => if runtime_ready {
            ("Analyze song"@, UiDomain::Library, "AnalyzeSong"@, true)
        } else {
            ("Set up analysis"@, UiDomain::Settings, "SettingsTab"@, false)
        },
    }
}

/// What the primary button does follows the song's authoring state: a song
/// whose analysis failed, or that is still to analyze while the runtime is
/// ready, is analyzed again (a song command); a song with a chart (to open,
/// fix or edit) opens the editor; a song in progress opens the activity
/// panel; a song still to analyze without a ready runtime leads to the
/// settings. Exactly the song commands carry the song.
pub proof fn law_primary_action_follows_the_authoring_state(
    state: Option<SongAuthoringState>,
    queued: Option<QueuedStatus>,
    runtime_ready: bool,
)
    ensures
        ({
            let (label, domain, variant, carries_song) = spec_song_primary_action(
                state,
                queued,
                runtime_ready,
            );
            let analyze = state == Some(SongAuthoringState::RetryFailedNode) || ((state is None
                || state == Some(SongAuthoringState::AnalyzeSong)) && runtime_ready);
            let edit = state == Some(SongAuthoringState::OpenEditor) || state == Some(
                SongAuthoringState::FixChartIssues,
            ) || state == Some(SongAuthoringState::EditChart);
            &&& (domain == UiDomain::Library && variant == "AnalyzeSong"@) <==> analyze
            &&& (domain == UiDomain::Library && variant == "OpenEditor"@) <==> edit
            &&& (domain == UiDomain::App && variant == "ToggleActivity"@) <==> state == Some(
                SongAuthoringState::InProgress,
            )
            &&& (domain == UiDomain::Settings && variant == "SettingsTab"@) <==> ((state is None
                || state == Some(SongAuthoringState::AnalyzeSong)) && !runtime_ready)
            &&& carries_song <==> domain == UiDomain::Library
            &&& state == Some(SongAuthoringState::RetryFailedNode) ==> label
                == "Retry failed analysis"@
        }),
{
    reveal_strlit("AnalyzeSong");
    reveal_strlit("OpenEditor");
    reveal_strlit("ToggleActivity");
    reveal_strlit("SettingsTab");
    assert("AnalyzeSong"@ != "OpenEditor"@) by {
        assert("AnalyzeSong"@[0] != "OpenEditor"@[0]);
    }
    assert("AnalyzeSong"@.len() != "ToggleActivity"@.len());
    assert("OpenEditor"@.len() != "ToggleActivity"@.len());
}

/// The song page's primary button: its label and what it does. An unknown
/// authoring state reads as a song still to analyze; analysis needs an
/// installed runtime, so without one the button leads to the Models page.
/// Song actions carry the song's hash.
pub fn song_primary_action(
    file_hash: &str,
    state: Option<SongAuthoringState>,
    queued: Option<QueuedStatus>,
    runtime_ready: bool,
) -> (action: (String, UiAction))
    ensures
        ({
            let (label, domain, variant, carries_song) = spec_song_primary_action(
                state,
                queued,
                runtime_ready,
            );
            &&& action.0@ == label
            &&& (action.1).0.domain == domain
            &&& (action.1).0.variant@ == variant
            &&& carries_song ==> (action.1).0.payload@.len() == 1 && (action.1).0.payload@[0]@
                == file_hash@
            &&& (!carries_song && domain == UiDomain::Settings) ==> (action.1).0.payload@.len()
                == 1 && (action.1).0.payload@[0]@ == "Models"@
            &&& (!carries_song && domain == UiDomain::App) ==> (action.1).0.payload@.len() == 0
        }),
{
    match state {
        Some(SongAuthoringState::InProgress) => {
            let label = match queued {
                Some(QueuedStatus::Queued) => owned("Queued for analysis"),
                Some(QueuedStatus::Analyzing(progress)) => {
                    let mut label = owned("Analyzing · ");
                    push_decimal(&mut label, progress);
                    push_str(&mut label, "%");
                    label
                },
                _ => owned("Analyzing"),
            };
            (label, UiAction(UiCommand::new(UiDomain::App, "ToggleActivity")))
        },
        Some(SongAuthoringState::RetryFailedNode) => (
            owned("Retry failed analysis"),
            UiAction(UiCommand::with_value(UiDomain::Library, "AnalyzeSong", file_hash)),
        ),
        Some(SongAuthoringState::OpenEditor) => (
            owned("Open editor"),
            UiAction(UiCommand::with_value(UiDomain::Library, "OpenEditor", file_hash)),
        ),
        Some(SongAuthoringState::FixChartIssues) => (
            owned("Fix chart issues"),
            UiAction(UiCommand::with_value(UiDomain::Library, "OpenEditor", file_hash)),
        ),
        Some(SongAuthoringState::EditChart) => (
            owned("Edit chart"),
            UiAction(UiCommand::with_value(UiDomain::Library, "OpenEditor", file_hash)),
        ),
        _ => if runtime_ready {
            (
                owned("Analyze song"),
                UiAction(UiCommand::with_value(UiDomain::Library, "AnalyzeSong", file_hash)),
            )
        } else {
            (
                owned("Set up analysis"),
                UiAction(UiCommand::with_value(UiDomain::Settings, "SettingsTab", "Models")),
            )
        },
    }
}

/// What the library knows of a song an analysis action is aimed at.
pub struct AnalysisTargetSong {
    pub title: String,
    /// Whether its chart was imported from an UltraStar (USDX) file.
    pub imported_usdx: bool,
}

/// Whether an analysis action may run for the song: refused, with the
/// notice to show, for an unknown song or an imported USDX chart; else the
/// song's title.
pub fn run_analysis_action_gate(file_hash: &str, song: Option<&AnalysisTargetSong>) -> (gate:
    Result<String, String>)
    ensures
        match song {
            None => gate matches Err(n) && n@ == "Song not found: "@ + file_hash@,
            Some(s) => if s.imported_usdx {
                gate matches Err(n) && n@ == "This action is unavailable for imported USDX charts."@
            } else {
                gate matches Ok(t) && t@ == s.title@
            },
        },
{
    match song {
        None => {
            let mut notice = owned("Song not found: ");
            push_str(&mut notice, file_hash);
            Err(notice)
        },
        Some(song) => if song.imported_usdx {
            Err(owned("This action is unavailable for imported USDX charts."))
        } else {
            Ok(owned(song.title.as_str()))
        },
    }
}

/// The notice after an analysis action ran for the song titled `title`.
pub fn queued_analysis_notice(title: &str, result: &Result<(), String>) -> (notice: String)
    ensures
        notice@ == match result {
            Ok(()) => "Queued analysis for “"@ + title@ + "”."@,
            Err(e) => "Could not queue analysis: "@ + e@,
        },
{
    match result {
        Ok(()) => {
            let mut notice = owned("Queued analysis for “");
            push_str(&mut notice, title);
            push_str(&mut notice, "”.");
            notice
        },
        Err(error) => {
            let mut notice = owned("Could not queue analysis: ");
            push_str(&mut notice, error.as_str());
            notice
        },
    }
}


/// The eight bytes every PNG file starts with.
pub open spec fn png_signature() -> Seq<u8> {
    seq![0x89u8, 0x50u8, 0x4Eu8, 0x47u8, 0x0Du8, 0x0Au8, 0x1Au8, 0x0Au8]
}

/// The image format album art is decoded as: PNG when the file starts with
/// the PNG signature, JPEG otherwise.
pub fn cover_image_extension(bytes: &[u8]) -> (extension: &'static str)
    ensures
        extension == (if bytes@.len() >= 8 && bytes@.take(8) == png_signature() {
            "png"
        } else {
            "jpg"
        }),
{
    let signature: [u8; 8] = [0x89, 0x50, 0x4E, 0x47, 0x0D, 0x0A, 0x1A, 0x0A];
    if bytes.len() < 8 {
        return "jpg";
    }
    let mut i: usize = 0;
    while i < 8
        invariant
            i <= 8,
            bytes@.len() >= 8,
            signature@ == png_signature(),
            forall|k: int| 0 <= k < i ==> bytes@[k] == png_signature()[k],
        decreases 8 - i,
    {
        if bytes[i] != signature[i] {
            assert(bytes@.take(8)[i as int] != png_signature()[i as int]);
            return "jpg";
        }
        i = i + 1;
    }
    assert(bytes@.take(8) =~= png_signature());
    "png"
}

} // verus!
