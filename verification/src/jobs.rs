//! Background jobs of the settings route, as state machines: the shell
//! drains each worker's channel and hands the events here; what the page
//! shows next, and what the shell must do, comes back.
use vstd::prelude::*;

use crate::text::{decimal, owned, push_decimal, push_str};
use crate::ui_api::string_views;

verus! {

/// How many runtime-setup log lines the page keeps.
pub const SETUP_LOG_LIMIT: usize = 200;

/// How long the Models page waits between two repaints while runtime setup
/// reports progress, in milliseconds.
pub const SETUP_REFRESH_INTERVAL_MS: u64 = 280;

/// One progress report of runtime setup.
#[derive(Debug, PartialEq, Eq)]
pub struct SetupProgress {
    pub action: String,
    pub percent: u64,
}

/// What the runtime-setup worker sent.
#[derive(Debug, PartialEq, Eq)]
pub enum SetupEvent {
    Progress(SetupProgress),
    Log(String),
    Complete(Result<(), String>),
}

/// What one poll of the setup channel found.
#[derive(Debug, PartialEq, Eq)]
pub enum SetupPoll {
    /// The events waiting in the channel, in order; `disconnected` when the
    /// worker went away after them.
    Received { events: Vec<SetupEvent>, disconnected: bool },
    /// The channel's lock was poisoned.
    Poisoned,
}

/// The runtime-setup job as the Models page sees it.
pub struct NativeSetup {
    pub running: bool,
    pub progress: Option<SetupProgress>,
    pub logs: Vec<String>,
    /// When the page was last repainted for this job, in milliseconds.
    pub last_ui_refresh_ms: Option<u64>,
}

/// What the shell must do after a poll.
#[derive(Debug, PartialEq, Eq)]
pub struct SetupPollOutcome {
    /// The notice to show, when it changes.
    pub notice: Option<String>,
    /// Whether the settings page must be repainted.
    pub invalidate: bool,
    /// Setup finished: reload the configuration, forget the cached runtime
    /// status and refresh the model settings.
    pub finished: bool,
}

/// An event as the page's state machine reads it.
pub enum SetupEventView {
    Progress(Seq<char>, u64),
    Log(Seq<char>),
    Complete(Result<(), Seq<char>>),
}

impl SetupEvent {
    pub open spec fn view(&self) -> SetupEventView {
        match self {
            SetupEvent::Progress(p) => SetupEventView::Progress(p.action@, p.percent),
            SetupEvent::Log(line) => SetupEventView::Log(line@),
            SetupEvent::Complete(Ok(())) => SetupEventView::Complete(Ok(())),
            SetupEvent::Complete(Err(e)) => SetupEventView::Complete(Err(e@)),
        }
    }
}

pub open spec fn event_views(events: Seq<SetupEvent>) -> Seq<SetupEventView> {
    events.map_values(|e: SetupEvent| e.view())
}

/// The abstract state that events act on.
pub struct SetupView {
    pub running: bool,
    pub progress: Option<(Seq<char>, u64)>,
    pub logs: Seq<Seq<char>>,
    pub notice: Option<Seq<char>>,
    pub finished: bool,
}

/// The last `limit` elements of `s` (all of them when there are fewer).
pub open spec fn keep_last<A>(s: Seq<A>, limit: nat) -> Seq<A> {
    if s.len() > limit {
        s.skip(s.len() - limit)
    } else {
        s
    }
}

pub open spec fn progress_notice(action: Seq<char>, percent: u64) -> Seq<char> {
    action + " · "@ + decimal(percent as nat) + "%"@
}

pub open spec fn completion_notice(result: Result<(), Seq<char>>) -> Seq<char> {
    match result {
        Ok(()) => "Analysis runtime setup completed."@,
        Err(e) => "Analysis runtime setup failed: "@ + e,
    }
}

/// One event applied to the page's state.
pub open spec fn setup_step(v: SetupView, e: SetupEventView) -> SetupView {
    match e {
        SetupEventView::Progress(action, percent) => SetupView {
            progress: Some((action, percent)),
            notice: Some(progress_notice(action, percent)),
            ..v
        },
        SetupEventView::Log(line) => SetupView {
            logs: keep_last(v.logs.push(line), SETUP_LOG_LIMIT as nat),
            ..v
        },
        SetupEventView::Complete(result) => SetupView {
            running: false,
            progress: None,
            notice: Some(completion_notice(result)),
            finished: true,
            ..v
        },
    }
}

/// The events applied in order.
pub open spec fn setup_apply(v: SetupView, events: Seq<SetupEventView>) -> SetupView
    decreases events.len(),
{
    if events.len() == 0 {
        v
    } else {
        setup_step(setup_apply(v, events.drop_last()), events.last())
    }
}

/// The events of a poll: a worker that went away counts as a failed
/// completion after what it sent.
pub open spec fn poll_events(events: Seq<SetupEvent>, disconnected: bool) -> Seq<SetupEventView> {
    if disconnected {
        event_views(events).push(
            SetupEventView::Complete(Err("Analysis setup worker exited unexpectedly."@)),
        )
    } else {
        event_views(events)
    }
}

impl NativeSetup {
    pub open spec fn view_progress(&self) -> Option<(Seq<char>, u64)> {
        match self.progress {
            Some(p) => Some((p.action@, p.percent)),
            None => None,
        }
    }

    /// The page's state, before any notice or completion.
    pub open spec fn start_view(&self) -> SetupView {
        SetupView {
            running: self.running,
            progress: self.view_progress(),
            logs: string_views(self.logs@),
            notice: None,
            finished: false,
        }
    }

    /// A job that has just been started.
    pub fn started() -> (setup: Self)
        ensures
            setup.running,
            setup.progress is None,
            setup.logs@.len() == 0,
            setup.last_ui_refresh_ms is None,
    {
        NativeSetup { running: true, progress: None, logs: Vec::new(), last_ui_refresh_ms: None }
    }
}

fn log_line(setup: &mut NativeSetup, line: String)
    requires
        old(setup).logs@.len() <= SETUP_LOG_LIMIT,
    ensures
        string_views(final(setup).logs@) == keep_last(
            string_views(old(setup).logs@).push(line@),
            SETUP_LOG_LIMIT as nat,
        ),
        final(setup).logs@.len() <= SETUP_LOG_LIMIT,
        final(setup).running == old(setup).running,
        final(setup).progress == old(setup).progress,
        final(setup).last_ui_refresh_ms == old(setup).last_ui_refresh_ms,
{
    let ghost before = string_views(setup.logs@);
    let ghost line_view = line@;
    setup.logs.push(line);
    assert(string_views(setup.logs@) =~= before.push(line_view));
    if setup.logs.len() > SETUP_LOG_LIMIT {
        let ghost full = string_views(setup.logs@);
        setup.logs.remove(0);
        assert(string_views(setup.logs@) =~= full.skip(1));
    }
}

/// One poll of the runtime-setup job; a job that is not running ignores
/// the poll. The events are applied in order:
/// progress replaces the notice, log lines are kept up to the last
/// `SETUP_LOG_LIMIT`, and completion stops the job and reports how it
/// ended. The page is repainted when setup finished, or at most once per
/// `SETUP_REFRESH_INTERVAL_MS` while it runs.
pub fn poll_native_setup(setup: &mut NativeSetup, poll: SetupPoll, now_ms: u64) -> (outcome:
    SetupPollOutcome)
    requires
        old(setup).logs@.len() <= SETUP_LOG_LIMIT,
    ensures
        final(setup).logs@.len() <= SETUP_LOG_LIMIT,
        !old(setup).running ==> {
            &&& final(setup).running == old(setup).running
            &&& final(setup).progress == old(setup).progress
            &&& final(setup).logs == old(setup).logs
            &&& final(setup).last_ui_refresh_ms == old(setup).last_ui_refresh_ms
            &&& outcome.notice is None
            &&& !outcome.invalidate
            &&& !outcome.finished
        },
        old(setup).running ==> match poll {
            SetupPoll::Poisoned => {
                &&& !final(setup).running
                &&& final(setup).progress is None
                &&& final(setup).last_ui_refresh_ms is None
                &&& final(setup).logs == old(setup).logs
                &&& outcome.notice matches Some(n) && n@
                    == "Analysis setup status channel was poisoned."@
                &&& outcome.invalidate
                &&& !outcome.finished
            },
            SetupPoll::Received { events, disconnected } => {
                let all = poll_events(events@, disconnected);
                if all.len() == 0 {
                    &&& final(setup).running == old(setup).running
                    &&& final(setup).progress == old(setup).progress
                    &&& final(setup).logs == old(setup).logs
                    &&& final(setup).last_ui_refresh_ms == old(setup).last_ui_refresh_ms
                    &&& outcome.notice is None
                    &&& !outcome.invalidate
                    &&& !outcome.finished
                } else {
                    let v = setup_apply(old(setup).start_view(), all);
                    let repaint = v.finished || match old(setup).last_ui_refresh_ms {
                        None => true,
                        Some(last) => now_ms >= last && now_ms - last
                            >= SETUP_REFRESH_INTERVAL_MS,
                    };
                    &&& final(setup).running == v.running
                    &&& final(setup).view_progress() == v.progress
                    &&& string_views(final(setup).logs@) == v.logs
                    &&& outcome.finished == v.finished
                    &&& match (outcome.notice, v.notice) {
                        (Some(n), Some(m)) => n@ == m,
                        (None, None) => true,
                        _ => false,
                    }
                    &&& outcome.invalidate == repaint
                    &&& final(setup).last_ui_refresh_ms == if repaint {
                        Some(now_ms)
                    } else if v.finished {
                        None
                    } else {
                        old(setup).last_ui_refresh_ms
                    }
                }
            },
        },
{
    if !setup.running {
        return SetupPollOutcome { notice: None, invalidate: false, finished: false };
    }
    match poll {
        SetupPoll::Poisoned => {
            setup.running = false;
            setup.progress = None;
            setup.last_ui_refresh_ms = None;
            SetupPollOutcome {
                notice: Some(owned("Analysis setup status channel was poisoned.")),
                invalidate: true,
                finished: false,
            }
        },
        SetupPoll::Received { events, disconnected } => {
            if events.len() == 0 && !disconnected {
                return SetupPollOutcome { notice: None, invalidate: false, finished: false };
            }
            let ghost all = poll_events(events@, disconnected);
            let ghost start = setup.start_view();
            let mut notice: Option<String> = None;
            let mut finished = false;
            let total = events.len();
            let mut i: usize = 0;
            while i < total
                invariant
                    all == poll_events(events@, disconnected),
                    total == events@.len(),
                    i <= total,
                    setup.logs@.len() <= SETUP_LOG_LIMIT,
                    ({
                        let v = setup_apply(start, all.take(i as int));
                        &&& setup.running == v.running
                        &&& setup.view_progress() == v.progress
                        &&& string_views(setup.logs@) == v.logs
                        &&& finished == v.finished
                        &&& match (notice, v.notice) {
                            (Some(n), Some(m)) => n@ == m,
                            (None, None) => true,
                            _ => false,
                        }
                        &&& (v.finished ==> setup.last_ui_refresh_ms is None)
                        &&& (!v.finished ==> setup.last_ui_refresh_ms == old(
                            setup,
                        ).last_ui_refresh_ms)
                    }),
                decreases total - i,
            {
                proof {
                    assert(all.take(i + 1).drop_last() =~= all.take(i as int));
                    assert(all.take(i + 1).last() == all[i as int]);
                    assert(all[i as int] == events@[i as int].view());
                }
                match &events[i] {
                    SetupEvent::Progress(progress) => {
                        let mut text = owned(progress.action.as_str());
                        push_str(&mut text, " · ");
                        push_decimal(&mut text, progress.percent);
                        push_str(&mut text, "%");
                        notice = Some(text);
                        setup.progress = Some(
                            SetupProgress {
                                action: owned(progress.action.as_str()),
                                percent: progress.percent,
                            },
                        );
                    },
                    SetupEvent::Log(line) => {
                        log_line(setup, owned(line.as_str()));
                    },
                    SetupEvent::Complete(result) => {
                        setup.running = false;
                        setup.progress = None;
                        setup.last_ui_refresh_ms = None;
                        finished = true;
                        notice = Some(
                            match result {
                                Ok(()) => owned("Analysis runtime setup completed."),
                                Err(error) => {
                                    let mut text = owned("Analysis runtime setup failed: ");
                                    push_str(&mut text, error.as_str());
                                    text
                                },
                            },
                        );
                    },
                }
                i = i + 1;
            }
            if disconnected {
                proof {
                    assert(all.take(total + 1).drop_last() =~= all.take(total as int));
                    assert(all.take(total + 1).last() == all[total as int]);
                }
                setup.running = false;
                setup.progress = None;
                setup.last_ui_refresh_ms = None;
                finished = true;
                let mut text = owned("Analysis runtime setup failed: ");
                push_str(&mut text, "Analysis setup worker exited unexpectedly.");
                notice = Some(text);
                proof {
                    assert(all.take(total + 1) =~= all);
                }
            } else {
                proof {
                    assert(all.take(total as int) =~= all);
                }
            }
            let due = match setup.last_ui_refresh_ms {
                None => true,
                Some(last) => now_ms >= last && now_ms - last >= SETUP_REFRESH_INTERVAL_MS,
            };
            let repaint = finished || due;
            if repaint {
                setup.last_ui_refresh_ms = Some(now_ms);
            }
            SetupPollOutcome { notice, invalidate: repaint, finished }
        },
    }
}

proof fn lemma_keep_last_push<A>(s: Seq<A>, x: A, limit: nat)
    requires
        limit > 0,
    ensures
        keep_last(keep_last(s, limit).push(x), limit) == keep_last(s.push(x), limit),
{
    let t = keep_last(s, limit);
    if s.len() > limit {
        assert(keep_last(t.push(x), limit) =~= keep_last(s.push(x), limit));
    } else {
        assert(t == s);
    }
}

/// The lines a sequence of events logs, in order.
pub open spec fn logged_lines(events: Seq<SetupEventView>) -> Seq<Seq<char>>
    decreases events.len(),
{
    if events.len() == 0 {
        Seq::empty()
    } else {
        let rest = logged_lines(events.drop_last());
        match events.last() {
            SetupEventView::Log(line) => rest.push(line),
            _ => rest,
        }
    }
}

/// The setup log holds exactly the most recent `SETUP_LOG_LIMIT` lines of
/// everything that was logged, however the lines arrive across polls.
pub proof fn law_setup_log_keeps_the_newest_lines(v: SetupView, events: Seq<SetupEventView>)
    requires
        v.logs.len() <= SETUP_LOG_LIMIT,
    ensures
        setup_apply(v, events).logs == keep_last(
            v.logs + logged_lines(events),
            SETUP_LOG_LIMIT as nat,
        ),
        setup_apply(v, events).logs.len() <= SETUP_LOG_LIMIT,
    decreases events.len(),
{
    let limit = SETUP_LOG_LIMIT as nat;
    if events.len() == 0 {
        assert(v.logs + logged_lines(events) =~= v.logs);
    } else {
        law_setup_log_keeps_the_newest_lines(v, events.drop_last());
        let base = v.logs + logged_lines(events.drop_last());
        match events.last() {
            SetupEventView::Log(line) => {
                lemma_keep_last_push(base, line, limit);
                assert(base.push(line) =~= v.logs + logged_lines(events));
            },
            _ => {},
        }
    }
}

/// The totals of a feature-diagnostics run.
#[derive(Clone, Copy, Debug, PartialEq, Eq)]
pub struct DiagnosticSummary {
    pub ok: bool,
    pub passed: u64,
    pub failed: u64,
    pub skipped: u64,
}

pub open spec fn spec_diagnostics_notice(result: Result<DiagnosticSummary, Seq<char>>) -> Seq<
    char,
> {
    match result {
        Ok(r) => "Diagnostics "@ + (if r.ok {
            "passed"@
        } else {
            "completed"@
        }) + ": "@ + decimal(r.passed as nat) + " passed, "@ + decimal(r.failed as nat)
            + " failed, "@ + decimal(r.skipped as nat) + " skipped."@,
        Err(e) => e,
    }
}

/// The notice for a finished diagnostics run, or the worker's failure.
pub fn diagnostics_notice(result: &Result<DiagnosticSummary, String>) -> (notice: String)
    ensures
        notice@ == spec_diagnostics_notice(
            match result {
                Ok(r) => Ok(*r),
                Err(e) => Err(e@),
            },
        ),
{
    match result {
        Ok(report) => {
            let mut notice = owned("Diagnostics ");
            push_str(&mut notice, if report.ok { "passed" } else { "completed" });
            push_str(&mut notice, ": ");
            push_decimal(&mut notice, report.passed);
            push_str(&mut notice, " passed, ");
            push_decimal(&mut notice, report.failed);
            push_str(&mut notice, " failed, ");
            push_decimal(&mut notice, report.skipped);
            push_str(&mut notice, " skipped.");
            notice
        },
        Err(error) => owned(error.as_str()),
    }
}

pub open spec fn spec_lyrics_search_notice(result: Result<usize, Seq<char>>, editor_open: bool) -> Option<
    Seq<char>,
> {
    match result {
        Ok(count) => if !editor_open {
            None
        } else if count == 0 {
            Some("LRCLIB did not return a matching lyric."@)
        } else {
            Some(
                "Found "@ + decimal(count as nat)
                    + " LRCLIB lyric candidate(s). Review before applying."@,
            )
        },
        Err(e) => Some(e),
    }
}

/// The notice when a lyrics search answers with `result` candidates (or a
/// failure); a search whose editor was closed meanwhile says nothing.
pub fn lyrics_search_notice(result: &Result<usize, String>, editor_open: bool) -> (notice: Option<
    String,
>)
    ensures
        match (
            notice,
            spec_lyrics_search_notice(
                match result {
                    Ok(c) => Ok(*c),
                    Err(e) => Err(e@),
                },
                editor_open,
            ),
        ) {
            (Some(n), Some(m)) => n@ == m,
            (None, None) => true,
            _ => false,
        },
{
    match result {
        Ok(count) => {
            if !editor_open {
                None
            } else if *count == 0 {
                Some(owned("LRCLIB did not return a matching lyric."))
            } else {
                let mut notice = owned("Found ");
                push_decimal(&mut notice, *count as u64);
                push_str(&mut notice, " LRCLIB lyric candidate(s). Review before applying.");
                Some(notice)
            }
        },
        Err(error) => Some(owned(error.as_str())),
    }
}

/// What the library knows of a song when a key shift is requested.
pub struct KeyShiftSong {
    /// The detected key, if analysis found one.
    pub key: Option<String>,
    /// The semitone offset currently applied.
    pub key_offset: i32,
}

/// The answer to a key-shift request.
#[derive(Debug, PartialEq, Eq)]
pub enum KeyShiftPlan {
    /// Nothing is rendered; the notice says why.
    Refused(String),
    /// Render the variant in `key` at `offset` semitones.
    Render { key: String, offset: i32, notice: String },
}

/// The offset a request moves to: one step of `delta`, kept within five
/// semitones either way.
pub open spec fn clamped_offset(current: int, delta: int) -> int {
    let raw = current + delta;
    if raw < -5 {
        -5
    } else if raw > 5 {
        5
    } else {
        raw
    }
}

pub open spec fn spec_key_shift_plan(
    busy: bool,
    song: Option<(Option<Seq<char>>, i32)>,
    file_hash: Seq<char>,
    delta: i8,
) -> Result<(Seq<char>, int), Seq<char>> {
    if busy {
        Err("A key or tempo render is already running."@)
    } else {
        match song {
            None => Err("Song not found: "@ + file_hash),
            Some((key, current)) => match key {
                None => Err("Analyze the song again to detect its original key."@),
                Some(original) => {
                    let offset = clamped_offset(current as int, delta as int);
                    if offset == current {
                        Err("Key shift is limited to five semitones in either direction."@)
                    } else {
                        Ok((crate::authoring::spec_shift_key(original, offset), offset))
                    }
                },
            },
        }
    }
}

/// Decides a key-shift request: refused while a render runs, for an unknown
/// song, for a song without a detected key, or when the offset is already at
/// its limit; otherwise the variant to render and the notice to show, and
/// the render counts as running.
pub fn start_key_shift(file_hash: &str, delta: i8, busy: &mut bool, song: Option<&KeyShiftSong>) -> (plan:
    KeyShiftPlan)
    ensures
        ({
            let expected = spec_key_shift_plan(
                *old(busy),
                match song {
                    Some(s) => Some(
                        (
                            match s.key {
                                Some(k) => Some(k@),
                                None => None,
                            },
                            s.key_offset,
                        ),
                    ),
                    None => None,
                },
                file_hash@,
                delta,
            );
            match (plan, expected) {
                (KeyShiftPlan::Refused(n), Err(m)) => n@ == m && *final(busy) == *old(busy),
                (KeyShiftPlan::Render { key, offset, notice }, Ok((k, o))) => {
                    &&& key@ == k
                    &&& offset == o
                    &&& notice@ == "Rendering key variant "@ + k + "…"@
                    &&& *final(busy)
                },
                _ => false,
            }
        }),
{
    if *busy {
        return KeyShiftPlan::Refused(owned("A key or tempo render is already running."));
    }
    let song = match song {
        Some(song) => song,
        None => {
            let mut notice = owned("Song not found: ");
            push_str(&mut notice, file_hash);
            return KeyShiftPlan::Refused(notice);
        },
    };
    let original = match &song.key {
        Some(key) => key,
        None => {
            return KeyShiftPlan::Refused(
                owned("Analyze the song again to detect its original key."),
            );
        },
    };
    let raw: i64 = song.key_offset as i64 + delta as i64;
    let offset: i32 = if raw < -5 {
        -5
    } else if raw > 5 {
        5
    } else {
        raw as i32
    };
    if offset == song.key_offset {
        return KeyShiftPlan::Refused(
            owned("Key shift is limited to five semitones in either direction."),
        );
    }
    let key = crate::authoring::shift_key_name(original.as_str(), offset);
    let mut notice = owned("Rendering key variant ");
    push_str(&mut notice, key.as_str());
    push_str(&mut notice, "…");
    *busy = true;
    KeyShiftPlan::Render { key, offset, notice }
}

/// A rendered key variant is never more than five semitones from the
/// original.
pub proof fn law_key_shift_stays_within_five_semitones(current: int, delta: int)
    ensures
        -5 <= clamped_offset(current, delta) <= 5,
{
}


// ---------------------------------------------------------------------------
// Refreshable snapshots: cache statistics and model settings
// ---------------------------------------------------------------------------

/// A snapshot that a worker computes on request: the last one received, the
/// last error, and whether a worker runs.
pub struct SnapshotJob<T> {
    pub running: bool,
    pub current: Option<T>,
    pub error: Option<String>,
}

/// What one poll of a snapshot worker's channel found.
pub enum SnapshotPoll<T> {
    /// Nothing yet.
    Empty,
    /// The worker's answer.
    Received(Result<T, String>),
    /// The worker went away without answering.
    Disconnected,
    /// The channel's lock was poisoned.
    Poisoned,
}

impl<T> SnapshotJob<T> {
    /// No snapshot, no error, no worker.
    pub fn new() -> (job: Self)
        ensures
            !job.running,
            job.current is None,
            job.error is None,
    {
        SnapshotJob { running: false, current: None, error: None }
    }

    /// Asks for a new snapshot: returns whether a worker must be started,
    /// which is when none runs; starting one clears the last error.
    pub fn start(&mut self) -> (spawn: bool)
        ensures
            spawn == !old(self).running,
            final(self).running,
            final(self).current == old(self).current,
            final(self).error == if spawn {
                None
            } else {
                old(self).error
            },
    {
        if self.running {
            return false;
        }
        self.error = None;
        self.running = true;
        true
    }

    /// Takes what a poll found. Any answer, or the loss of the worker or of
    /// its channel, ends the job: an answer replaces the snapshot and clears
    /// the error, a failure becomes the error (the failure messages name the
    /// worker) and the snapshot stays. Returns whether the page must be
    /// repainted.
    pub fn poll(&mut self, poll: SnapshotPoll<T>, kind: SnapshotKind) -> (repaint: bool)
        ensures
            match poll {
                SnapshotPoll::Empty => !repaint && final(self).running == old(self).running
                    && final(self).current == old(self).current && final(self).error == old(self).error,
                SnapshotPoll::Received(Ok(v)) => repaint && !final(self).running && final(self).current
                    == Some(v) && final(self).error is None,
                SnapshotPoll::Received(Err(e)) => repaint && !final(self).running && final(self).current
                    == old(self).current && final(self).error == Some(e),
                SnapshotPoll::Disconnected => repaint && !final(self).running && final(self).current
                    == old(self).current && (final(self).error matches Some(e) && e@
                    == spec_failure_messages(kind).0@),
                SnapshotPoll::Poisoned => repaint && !final(self).running && final(self).current
                    == old(self).current && (final(self).error matches Some(e) && e@
                    == spec_failure_messages(kind).1@),
            },
    {
        let (disconnected, poisoned) = failure_messages(kind);
        let result = match poll {
            SnapshotPoll::Empty => {
                return false;
            },
            SnapshotPoll::Received(result) => result,
            SnapshotPoll::Disconnected => Err(owned(disconnected)),
            SnapshotPoll::Poisoned => Err(owned(poisoned)),
        };
        self.running = false;
        match result {
            Ok(v) => {
                self.current = Some(v);
                self.error = None;
            },
            Err(e) => {
                self.error = Some(e);
            },
        }
        true
    }
}

/// The workers whose answer ends their job.
#[derive(Clone, Copy, Debug, PartialEq, Eq)]
pub enum SnapshotKind {
    CacheStats,
    ModelStatus,
    Diagnostics,
}

pub open spec fn spec_failure_messages(kind: SnapshotKind) -> (&'static str, &'static str) {
    match kind {
        SnapshotKind::CacheStats => (
            "Cache stats worker exited unexpectedly.",
            "Cache stats status channel was poisoned.",
        ),
        SnapshotKind::ModelStatus => (
            "Model status worker exited unexpectedly.",
            "Model status channel was poisoned.",
        ),
        SnapshotKind::Diagnostics => (
            "Feature diagnostics worker exited unexpectedly.",
            "Feature diagnostics status channel was poisoned.",
        ),
    }
}

/// What a worker that went away, and a poisoned channel, report.
pub fn failure_messages(kind: SnapshotKind) -> (messages: (&'static str, &'static str))
    ensures
        messages == spec_failure_messages(kind),
{
    match kind {
        SnapshotKind::CacheStats => (
            "Cache stats worker exited unexpectedly.",
            "Cache stats status channel was poisoned.",
        ),
        SnapshotKind::ModelStatus => (
            "Model status worker exited unexpectedly.",
            "Model status channel was poisoned.",
        ),
        SnapshotKind::Diagnostics => (
            "Feature diagnostics worker exited unexpectedly.",
            "Feature diagnostics status channel was poisoned.",
        ),
    }
}

/// A request to refresh the cache statistics starts a scan only when there
/// is no snapshot yet and none is being computed.
pub fn cache_stats_scan_wanted(requested: bool, has_snapshot: bool, running: bool) -> (start: bool)
    ensures
        start == (requested && !has_snapshot && !running),
{
    requested && !has_snapshot && !running
}

// ---------------------------------------------------------------------------
// Key and tempo renders
// ---------------------------------------------------------------------------

/// What a finished render reports.
#[derive(Debug, PartialEq, Eq)]
pub struct RenderedVariant {
    pub key: String,
    /// The tempo multiplier, already worded.
    pub tempo: String,
}

/// What one poll of the render worker's channel found. A poisoned channel
/// reads as nothing yet.
pub enum AuthoringPoll {
    Empty,
    /// The render of `kind` (`key` or `tempo`) finished.
    Finished { kind: String, result: Result<RenderedVariant, String> },
    Disconnected,
}

/// What the shell must do after a render poll.
#[derive(Debug, PartialEq, Eq)]
pub struct AuthoringPollOutcome {
    pub notice: Option<String>,
    /// The render succeeded: reload the library.
    pub refresh_library: bool,
    /// The library page must be repainted.
    pub repaint: bool,
}

/// Takes what a render poll found: any answer ends the render (the job and
/// the busy flag are released) and says how it went.
pub fn poll_authoring_job(running: &mut bool, busy: &mut bool, poll: AuthoringPoll) -> (outcome:
    AuthoringPollOutcome)
    ensures
        match poll {
            AuthoringPoll::Empty => outcome.notice is None && !outcome.refresh_library
                && !outcome.repaint && *final(running) == *old(running) && *final(busy) == *old(busy),
            AuthoringPoll::Finished { kind, result } => {
                &&& !*final(running) && !*final(busy) && outcome.repaint
                &&& match result {
                    Ok(v) => outcome.refresh_library && (outcome.notice matches Some(n) && n@
                        == "Song "@ + kind@ + " shifted successfully · key "@ + v.key@ + " · "@
                        + v.tempo@ + "× tempo."@),
                    Err(e) => !outcome.refresh_library && (outcome.notice matches Some(n) && n@
                        == "Could not render "@ + kind@ + " variant: "@ + e@),
                }
            },
            AuthoringPoll::Disconnected => !*final(running) && !*final(busy) && outcome.repaint
                && !outcome.refresh_library && (outcome.notice matches Some(n) && n@
                == "Key/tempo render worker exited unexpectedly."@),
        },
{
    match poll {
        AuthoringPoll::Empty => AuthoringPollOutcome { notice: None, refresh_library: false, repaint: false },
        AuthoringPoll::Finished { kind, result } => {
            *running = false;
            *busy = false;
            match result {
                Ok(v) => {
                    let mut notice = owned("Song ");
                    push_str(&mut notice, kind.as_str());
                    push_str(&mut notice, " shifted successfully · key ");
                    push_str(&mut notice, v.key.as_str());
                    push_str(&mut notice, " · ");
                    push_str(&mut notice, v.tempo.as_str());
                    push_str(&mut notice, "× tempo.");
                    AuthoringPollOutcome { notice: Some(notice), refresh_library: true, repaint: true }
                },
                Err(e) => {
                    let mut notice = owned("Could not render ");
                    push_str(&mut notice, kind.as_str());
                    push_str(&mut notice, " variant: ");
                    push_str(&mut notice, e.as_str());
                    AuthoringPollOutcome { notice: Some(notice), refresh_library: false, repaint: true }
                },
            }
        },
        AuthoringPoll::Disconnected => {
            *running = false;
            *busy = false;
            AuthoringPollOutcome {
                notice: Some(owned("Key/tempo render worker exited unexpectedly.")),
                refresh_library: false,
                repaint: true,
            }
        },
    }
}

// ---------------------------------------------------------------------------
// The transcript waveform
// ---------------------------------------------------------------------------

/// What one poll of the waveform worker's channel found. A poisoned channel
/// reads as nothing yet.
pub enum WaveformPoll<W> {
    Empty,
    /// The waveform of the song `file_hash`, or why it failed.
    Finished { file_hash: String, result: Result<W, String> },
    Disconnected,
}

/// What becomes of a waveform poll.
pub enum WaveformOutcome<W> {
    /// Nothing to do.
    Nothing,
    /// The worker is done, but the editor it was for is gone.
    Dropped,
    /// Give the open editor this waveform, and repaint.
    Apply(W),
    /// Tell the user that the waveform failed, and repaint.
    Failed(String),
}

/// Takes what a waveform poll found for the lyrics editor open on
/// `open_editor` (if any): every answer ends the job; it reaches the editor
/// only when that editor is still open on the same song. A worker that went
/// away is an answer for no song.
pub fn poll_lyrics_waveform_job<W>(running: &mut bool, open_editor: Option<&str>, poll: WaveformPoll<W>) -> (outcome:
    WaveformOutcome<W>)
    ensures
        match poll {
            WaveformPoll::Empty => outcome is Nothing && *final(running) == *old(running),
            WaveformPoll::Finished { file_hash, result } => !*final(running) && if open_editor
                matches Some(h) && h@ == file_hash@ {
                match result {
                    Ok(w) => outcome == WaveformOutcome::Apply(w),
                    Err(e) => outcome matches WaveformOutcome::Failed(f) && f@ == e@,
                }
            } else {
                outcome is Dropped
            },
            WaveformPoll::Disconnected => !*final(running) && if open_editor matches Some(h) && h@.len()
                == 0 {
                outcome matches WaveformOutcome::Failed(f) && f@
                    == "TimedTranscript waveform worker exited unexpectedly."@
            } else {
                outcome is Dropped
            },
        },
{
    match poll {
        WaveformPoll::Empty => WaveformOutcome::Nothing,
        WaveformPoll::Finished { file_hash, result } => {
            *running = false;
            let same = match open_editor {
                Some(h) => crate::text::str_equal(h, file_hash.as_str()),
                None => false,
            };
            if !same {
                return WaveformOutcome::Dropped;
            }
            match result {
                Ok(w) => WaveformOutcome::Apply(w),
                Err(e) => WaveformOutcome::Failed(e),
            }
        },
        WaveformPoll::Disconnected => {
            *running = false;
            let same = match open_editor {
                Some(h) => h.unicode_len() == 0,
                None => false,
            };
            if same {
                WaveformOutcome::Failed(owned("TimedTranscript waveform worker exited unexpectedly."))
            } else {
                WaveformOutcome::Dropped
            }
        },
    }
}


// ---------------------------------------------------------------------------
// The setup progress panel
// ---------------------------------------------------------------------------

/// What the setup progress panel shows of a running setup.
pub struct SetupPanel {
    pub percent: u64,
    pub action: String,
    /// The newest log lines, oldest first.
    pub log_tail: Vec<String>,
}

/// How many log lines the progress panel shows.
pub const SETUP_PANEL_LOG_LINES: usize = 4;

/// The progress panel of `setup`: the reported percentage and action (none
/// reported yet reads as starting at 0%), and the last few log lines in
/// their order.
pub fn setup_panel(setup: &NativeSetup) -> (panel: SetupPanel)
    ensures
        panel.percent == match setup.progress {
            Some(p) => p.percent,
            None => 0,
        },
        panel.action@ == match setup.progress {
            Some(p) => p.action@,
            None => "Starting setup…"@,
        },
        string_views(panel.log_tail@) == keep_last(string_views(setup.logs@), SETUP_PANEL_LOG_LINES as nat),
{
    let (percent, action) = match &setup.progress {
        Some(p) => (p.percent, owned(p.action.as_str())),
        None => (0, owned("Starting setup…")),
    };
    let n = setup.logs.len();
    let start: usize = if n > SETUP_PANEL_LOG_LINES {
        n - SETUP_PANEL_LOG_LINES
    } else {
        0
    };
    let mut log_tail: Vec<String> = Vec::new();
    let mut i: usize = start;
    while i < n
        invariant
            start <= i <= n,
            n == setup.logs.len(),
            log_tail.len() == i - start,
            forall|k: int| 0 <= k < i - start ==> (#[trigger] log_tail@[k])@ == setup.logs@[start + k]@,
        decreases n - i,
    {
        log_tail.push(owned(setup.logs[i].as_str()));
        i = i + 1;
    }
    assert(string_views(log_tail@) =~= keep_last(string_views(setup.logs@), SETUP_PANEL_LOG_LINES as nat));
    SetupPanel { percent, action, log_tail }
}

} // verus!
