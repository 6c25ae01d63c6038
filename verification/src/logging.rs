//! Desktop log filtering and the explicit debug-capture job.
use tracing_subscriber::filter::Directive;
use tracing_subscriber::EnvFilter;
use vstd::prelude::*;

use crate::text::{is_white_space, owned, push_char, push_str};

verus! {

/// A `tracing` environment filter; built from a directive list and handed
/// to the subscriber.
#[verifier::external_type_specification]
#[verifier::external_body]
pub struct ExEnvFilter(EnvFilter);

/// The filter Bevy's log plugin starts from.
pub open spec fn bevy_default_filter() -> Seq<char> {
    "wgpu=error,naga=warn,symphonia_bundle_mp3::demuxer=warn,symphonia_format_caf::demuxer=warn,symphonia_format_isompf4::demuxer=warn,symphonia_format_mkv::demuxer=warn,symphonia_format_ogg::demuxer=warn,symphonia_format_riff::demuxer=warn,symphonia_format_wav::demuxer=warn,calloop::loop_logic=error,"@
}

/// Reads `bevy::log::DEFAULT_FILTER`; in the version this crate builds
/// against the constant is the directive list that `bevy_default_filter`
/// spells out.
#[verifier::external_body]
fn bevy_log_default_filter() -> (filter: &'static str)
    ensures
        filter@ == bevy_default_filter(),
{
    bevy::log::DEFAULT_FILTER
}

pub open spec fn spec_studio_log_filter() -> Seq<char> {
    bevy_default_filter() + ",icu_provider=error"@
}

/// Bevy's default filter with the ICU provider held at `error`: its
/// expected CJK fallback lookups would otherwise flood the desktop log.
pub fn studio_log_filter() -> (filter: String)
    ensures
        filter@ == spec_studio_log_filter(),
{
    let mut filter = owned(bevy_log_default_filter());
    push_str(&mut filter, ",icu_provider=error");
    filter
}

/// Whether `tracing-subscriber` accepts `directive` as one filter
/// directive.
pub uninterp spec fn directive_is_valid(directive: Seq<char>) -> bool;

/// Every character of `s` is ASCII.
pub open spec fn all_ascii(s: Seq<char>) -> bool {
    forall|i: int| 0 <= i < s.len() ==> (#[trigger] s[i] as u32) < 128
}

/// Whether the directive parser of `tracing-subscriber` can read `d`
/// without panicking. It walks the text with its surrounding white space
/// trimmed but slices the untrimmed text at the positions it found; that is
/// safe when nothing is trimmed at the front, or when every position is a
/// character boundary (all ASCII). Otherwise, as in `" é=info"`, a slice can
/// end inside a character and the parser panics.
pub open spec fn directive_is_safe(d: Seq<char>) -> bool {
    d.len() == 0 || !is_white_space(d[0]) || all_ascii(d)
}

/// Every comma-separated piece of `s` is a directive the parser can read
/// without panicking.
pub open spec fn directives_are_safe(s: Seq<char>) -> bool {
    forall|k: int|
        0 <= k < split_on(s, ',').len() ==> directive_is_safe(#[trigger] split_on(s, ',')[k])
}

/// Calls `str::parse::<tracing_subscriber::filter::Directive>` and reports
/// whether it succeeded. Which strings parse is the crate's directive
/// grammar; it is named by `directive_is_valid`, not spelled out. Inputs on
/// which the parser panics are left out.
#[verifier::external_body]
fn directive_parses(directive: &str) -> (ok: bool)
    requires
        directive_is_safe(directive@),
    ensures
        ok == directive_is_valid(directive@),
{
    directive.parse::<Directive>().is_ok()
}

/// Calls `EnvFilter::new`, which builds a filter from a comma-separated
/// directive list, parsing each non-empty piece with the directive parser
/// (so every piece must be one it reads without panicking). The filter is
/// opaque; nothing is stated of it: besides the parsed directives it holds
/// hash maps seeded per process and per-thread state, so it is no function
/// of the directives alone and gets no name.
#[verifier::external_body]
fn env_filter_new(directives: &str) -> (filter: EnvFilter)
    requires
        directives_are_safe(directives@),
{
    EnvFilter::new(directives)
}

/// The pieces of `s` between the occurrences of `sep` (as `str::split`:
/// an empty string is one empty piece).
pub open spec fn split_on(s: Seq<char>, sep: char) -> Seq<Seq<char>>
    decreases s.len(),
{
    if s.len() == 0 {
        seq![Seq::empty()]
    } else {
        let rest = split_on(s.drop_last(), sep);
        if s.last() == sep {
            rest.push(Seq::empty())
        } else {
            rest.update(rest.len() - 1, rest.last().push(s.last()))
        }
    }
}

proof fn lemma_split_nonempty(s: Seq<char>, sep: char)
    ensures
        split_on(s, sep).len() >= 1,
    decreases s.len(),
{
    if s.len() > 0 {
        lemma_split_nonempty(s.drop_last(), sep);
    }
}

proof fn lemma_split_pieces(s: Seq<char>, sep: char)
    ensures
        forall|k: int, j: int|
            0 <= k < split_on(s, sep).len() && 0 <= j < split_on(s, sep)[k].len() ==> #[trigger] split_on(
                s,
                sep,
            )[k][j] != sep,
        all_ascii(s) ==> forall|k: int|
            0 <= k < split_on(s, sep).len() ==> all_ascii(#[trigger] split_on(s, sep)[k]),
    decreases s.len(),
{
    if s.len() > 0 {
        let t = s.drop_last();
        lemma_split_pieces(t, sep);
        lemma_split_nonempty(t, sep);
        if all_ascii(s) {
            assert forall|i: int| 0 <= i < t.len() implies (#[trigger] t[i] as u32) < 128 by {
                assert(t[i] == s[i]);
            }
            assert((s.last() as u32) < 128);
        }
    }
}

proof fn lemma_split_no_sep(s: Seq<char>, sep: char)
    requires
        forall|j: int| 0 <= j < s.len() ==> s[j] != sep,
    ensures
        split_on(s, sep) == seq![s],
    decreases s.len(),
{
    if s.len() > 0 {
        lemma_split_no_sep(s.drop_last(), sep);
        assert(s.drop_last().push(s.last()) =~= s);
        assert(split_on(s, sep) =~= seq![s]);
    } else {
        assert(s =~= Seq::<char>::empty());
    }
}

proof fn lemma_split_join(a: Seq<char>, b: Seq<char>, sep: char)
    ensures
        split_on(a + seq![sep] + b, sep) == split_on(a, sep) + split_on(b, sep),
    decreases b.len(),
{
    let s = a + seq![sep] + b;
    if b.len() == 0 {
        assert(s.drop_last() =~= a);
        assert(b =~= Seq::<char>::empty());
        assert(split_on(b, sep) =~= seq![Seq::<char>::empty()]);
        assert(split_on(s, sep) =~= split_on(a, sep) + split_on(b, sep));
    } else {
        let b0 = b.drop_last();
        assert(s.drop_last() =~= a + seq![sep] + b0);
        assert(s.last() == b.last());
        lemma_split_join(a, b0, sep);
        lemma_split_nonempty(b0, sep);
        lemma_split_nonempty(a, sep);
        assert(split_on(s, sep) =~= split_on(a, sep) + split_on(b, sep));
    }
}

/// The non-empty directives of an environment filter string.
pub open spec fn env_directives(environment: Seq<char>) -> Seq<Seq<char>> {
    split_on(environment, ',').filter(|d: Seq<char>| d.len() > 0)
}

/// `base` followed by `,<d>` for each directive `d`.
pub open spec fn with_directives(base: Seq<char>, directives: Seq<Seq<char>>) -> Seq<char>
    decreases directives.len(),
{
    if directives.len() == 0 {
        base
    } else {
        with_directives(base, directives.drop_last()) + ","@ + directives.last()
    }
}

/// The desktop's default directives.
pub open spec fn default_directives() -> Seq<char> {
    "info,"@ + spec_studio_log_filter()
}

/// The filter directives for a `RUST_LOG`-style value: the defaults plus
/// every non-empty directive, or only the defaults when any of them is
/// rejected.
pub open spec fn spec_normal_log_filter(environment: Seq<char>) -> Seq<char> {
    let ds = env_directives(environment);
    if forall|i: int| 0 <= i < ds.len() ==> directive_is_valid(#[trigger] ds[i]) {
        with_directives(default_directives(), ds)
    } else {
        default_directives()
    }
}

/// Splits `s` at every `sep`.
pub fn split_chars(s: &str, sep: char) -> (pieces: Vec<String>)
    ensures
        pieces@.map_values(|p: String| p@) == split_on(s@, sep),
{
    let n = s.unicode_len();
    let mut done: Vec<String> = Vec::new();
    let mut current = String::new();
    let mut i: usize = 0;
    assert(s@.take(0) =~= Seq::<char>::empty());
    assert(done@.map_values(|p: String| p@).push(current@) =~= split_on(s@.take(0), sep));
    while i < n
        invariant
            n == s@.len(),
            i <= n,
            done@.map_values(|p: String| p@).push(current@) == split_on(s@.take(i as int), sep),
        decreases n - i,
    {
        let c = s.get_char(i);
        let ghost prefix = s@.take(i as int);
        let ghost before = done@.map_values(|p: String| p@).push(current@);
        proof {
            assert(s@.take(i + 1).drop_last() =~= prefix);
            assert(s@.take(i + 1).last() == c);
            lemma_split_nonempty(prefix, sep);
        }
        if c == sep {
            let piece = current;
            let ghost piece_view = piece@;
            done.push(piece);
            current = String::new();
            proof {
                assert(done@.map_values(|p: String| p@) =~= before);
                assert(done@.map_values(|p: String| p@).push(current@) =~= before.push(
                    Seq::empty(),
                ));
            }
        } else {
            let ghost old_current = current@;
            push_char(&mut current, c);
            proof {
                assert(done@.map_values(|p: String| p@).push(current@) =~= before.update(
                    before.len() - 1,
                    old_current.push(c),
                ));
            }
        }
        i = i + 1;
    }
    assert(s@.take(n as int) =~= s@);
    done.push(current);
    done
}

/// The directive list the desktop filters its log with, for the value of
/// `RUST_LOG`. A value with a piece the directive parser cannot read
/// without panicking is left out, as the parser panics on it; the list
/// built holds only pieces it can read.
pub fn normal_log_filter_directives(environment: &str) -> (directives: String)
    requires
        directives_are_safe(environment@),
    ensures
        directives@ == spec_normal_log_filter(environment@),
        directives_are_safe(directives@),
{
    let mut defaults = owned("info,");
    let studio = studio_log_filter();
    push_str(&mut defaults, studio.as_str());
    let pieces = split_chars(environment, ',');
    let ghost views = pieces@.map_values(|p: String| p@);
    let ghost nonempty = |d: Seq<char>| d.len() > 0;
    let mut accepted = owned(defaults.as_str());
    let mut i: usize = 0;
    assert(views.take(0).filter(nonempty) =~= Seq::<Seq<char>>::empty());
    proof {
        reveal_strlit("info,");
        reveal_strlit(",icu_provider=error");
        reveal_strlit(
            "wgpu=error,naga=warn,symphonia_bundle_mp3::demuxer=warn,symphonia_format_caf::demuxer=warn,symphonia_format_isompf4::demuxer=warn,symphonia_format_mkv::demuxer=warn,symphonia_format_ogg::demuxer=warn,symphonia_format_riff::demuxer=warn,symphonia_format_wav::demuxer=warn,calloop::loop_logic=error,",
        );
        assert(all_ascii(default_directives()));
        lemma_split_pieces(default_directives(), ',');
        assert(directives_are_safe(default_directives()));
        lemma_split_pieces(environment@, ',');
    }
    while i < pieces.len()
        invariant
            i <= pieces.len(),
            views == pieces@.map_values(|p: String| p@),
            views == split_on(environment@, ','),
            nonempty == (|d: Seq<char>| d.len() > 0),
            defaults@ == default_directives(),
            directives_are_safe(defaults@),
            directives_are_safe(environment@),
            directives_are_safe(accepted@),
            forall|k: int, j: int|
                0 <= k < views.len() && 0 <= j < views[k].len() ==> #[trigger] views[k][j] != ',',
            forall|k: int|
                0 <= k < views.take(i as int).filter(nonempty).len() ==> directive_is_valid(
                    #[trigger] views.take(i as int).filter(nonempty)[k],
                ),
            accepted@ == with_directives(defaults@, views.take(i as int).filter(nonempty)),
        decreases pieces.len() - i,
    {
        let piece = pieces[i].as_str();
        let ghost prev = views.take(i as int).filter(nonempty);
        proof {
            assert(views.take(i + 1).drop_last() =~= views.take(i as int));
            reveal(Seq::filter);
            assert(views.take(i + 1).filter(nonempty) == if nonempty(views[i as int]) {
                prev.push(views[i as int])
            } else {
                prev
            });
        }
        if piece.unicode_len() > 0 {
            if !directive_parses(piece) {
                proof {
                    let all = views.filter(nonempty);
                    assert(views.take(i + 1).filter(nonempty) == prev.push(views[i as int]));
                    assert(views.take(i + 1).is_prefix_of(views));
                    views.take(i + 1).lemma_filter_monotone(views, nonempty);
                    let k = prev.len() as int;
                    assert(views.take(i + 1).filter(nonempty)[k] == views[i as int]);
                    assert(all[k] == views[i as int]);
                    assert(!directive_is_valid(all[k]));
                }
                return defaults;
            }
            let ghost before = accepted@;
            push_char(&mut accepted, ',');
            push_str(&mut accepted, piece);
            proof {
                reveal_strlit(",");
                assert(accepted@ =~= before + seq![','] + piece@);
                lemma_split_join(before, piece@, ',');
                lemma_split_no_sep(piece@, ',');
                assert(directive_is_safe(views[i as int]));
                assert forall|k: int| 0 <= k < split_on(accepted@, ',').len() implies directive_is_safe(
                    #[trigger] split_on(accepted@, ',')[k],
                ) by {
                    if k < split_on(before, ',').len() {
                        assert(split_on(accepted@, ',')[k] == split_on(before, ',')[k]);
                    } else {
                        assert(split_on(accepted@, ',')[k] == piece@);
                    }
                }
                assert(piece@ == views[i as int]);
                let next = prev.push(views[i as int]);
                assert(next.drop_last() =~= prev);
                assert(accepted@ =~= with_directives(defaults@, next));
            }
        }
        i = i + 1;
    }
    assert(views.take(pieces.len() as int) =~= views);
    accepted
}

/// The desktop's log filter for the value of `RUST_LOG`: the filter that
/// `EnvFilter::new` builds from `normal_log_filter_directives(environment)`
/// (for a value the directive parser reads without panicking),
/// whose contract states that directive list. Of the filter itself nothing
/// is stated (see `env_filter_new`).
pub fn normal_log_filter(environment: &str) -> EnvFilter
    requires
        directives_are_safe(environment@),
{
    let directives = normal_log_filter_directives(environment);
    env_filter_new(directives.as_str())
}

/// The explicit debug-capture job: whether an export is running, whether
/// live DEBUG capture is on, and the last live-capture error reported.
pub struct DebugLogJob {
    pub running: bool,
    pub capture_active: bool,
    pub reported_error: Option<String>,
}

impl DebugLogJob {
    /// No export has run.
    pub fn new() -> (job: Self)
        ensures
            !job.running,
            !job.capture_active,
            job.reported_error is None,
    {
        DebugLogJob { running: false, capture_active: false, reported_error: None }
    }
}

impl Default for DebugLogJob {
    fn default() -> (job: Self)
        ensures
            !job.running,
            !job.capture_active,
            job.reported_error is None,
    {
        DebugLogJob::new()
    }
}

/// Asks for an export. The answer is the notice to show and whether the
/// export worker must now be started; a second request while one runs
/// starts nothing.
pub fn start_debug_log_job(job: &mut DebugLogJob) -> (started: (String, bool))
    ensures
        started.1 == !old(job).running,
        final(job).running,
        final(job).capture_active == old(job).capture_active,
        final(job).reported_error == old(job).reported_error,
        started.0@ == if old(job).running {
            "Debug log export is already running…"@
        } else {
            "Saving full retained logs and enabling live DEBUG capture…"@
        },
{
    if job.running {
        return (owned("Debug log export is already running…"), false);
    }
    job.running = true;
    (owned("Saving full retained logs and enabling live DEBUG capture…"), true)
}

/// What the export worker's channel held at one poll.
pub enum DebugLogPoll {
    /// Nothing yet.
    Pending,
    /// The export finished: the saved log's path, or why it failed.
    Finished(Result<String, String>),
    /// The worker went away without answering.
    WorkerExited,
    /// The channel's lock was poisoned.
    ChannelPoisoned,
}

/// What one poll asks of the shell.
pub struct DebugLogPollOutcome {
    /// The notice to show, when it changes.
    pub notice: Option<String>,
    /// Whether the settings page must be rebuilt.
    pub invalidate: bool,
}

pub open spec fn spec_export_result(poll: DebugLogPoll) -> Option<Result<Seq<char>, Seq<char>>> {
    match poll {
        DebugLogPoll::Pending => None,
        DebugLogPoll::Finished(Ok(path)) => Some(Ok(path@)),
        DebugLogPoll::Finished(Err(e)) => Some(Err(e@)),
        DebugLogPoll::WorkerExited => Some(Err("Debug log export worker exited unexpectedly"@)),
        DebugLogPoll::ChannelPoisoned => Some(Err("Debug log export status channel was poisoned"@)),
    }
}

pub open spec fn export_notice(result: Result<Seq<char>, Seq<char>>) -> Seq<char> {
    match result {
        Ok(path) => "DEBUG logs: "@ + path
            + " — detailed capture stays on until exit. Reproduce the issue now; earlier filtered events cannot be recovered. Logs may contain local paths and lyrics; nothing is uploaded."@,
        Err(e) => "DEBUG log export failed: "@ + e,
    }
}

/// Whether a live-capture error is new and must be reported.
pub open spec fn reports_live_error(job: DebugLogJob, live_error: Option<String>) -> bool {
    job.capture_active && live_error is Some && match job.reported_error {
        Some(r) => r@ != live_error->0@,
        None => true,
    }
}

/// One poll of the export: reports a new live-capture failure once, then,
/// when the running export has answered, finishes it and reports how it
/// ended. Only a successful export turns live capture on.
pub fn poll_debug_log_job(
    job: &mut DebugLogJob,
    live_error: Option<String>,
    poll: DebugLogPoll,
) -> (outcome: DebugLogPollOutcome)
    ensures
        ({
            let reported = reports_live_error(*old(job), live_error);
            let finished = if old(job).running {
                spec_export_result(poll)
            } else {
                None
            };
            &&& outcome.invalidate == (reported || finished is Some)
            &&& match finished {
                Some(result) => {
                    &&& !final(job).running
                    &&& outcome.notice matches Some(n) && n@ == export_notice(result)
                    &&& final(job).capture_active == (old(job).capture_active || result is Ok)
                    &&& result is Ok ==> final(job).reported_error is None
                    &&& result is Err ==> final(job).reported_error == if reported {
                        live_error
                    } else {
                        old(job).reported_error
                    }
                },
                None => {
                    &&& final(job).running == old(job).running
                    &&& final(job).capture_active == old(job).capture_active
                    &&& if reported {
                        &&& outcome.notice matches Some(n) && n@ == "DEBUG live capture failed: "@
                            + live_error->0@
                        &&& final(job).reported_error == live_error
                    } else {
                        &&& outcome.notice is None
                        &&& final(job).reported_error == old(job).reported_error
                    }
                },
            }
        }),
{
    let mut notice: Option<String> = None;
    let mut invalidate = false;
    if job.capture_active {
        if let Some(error) = live_error {
            let is_new = match &job.reported_error {
                Some(reported) => !crate::text::str_equal(reported.as_str(), error.as_str()),
                None => true,
            };
            if is_new {
                let mut text = owned("DEBUG live capture failed: ");
                push_str(&mut text, error.as_str());
                notice = Some(text);
                job.reported_error = Some(error);
                invalidate = true;
            }
        }
    }
    if !job.running {
        return DebugLogPollOutcome { notice, invalidate };
    }
    let result = match poll {
        DebugLogPoll::Pending => {
            return DebugLogPollOutcome { notice, invalidate };
        },
        DebugLogPoll::Finished(result) => result,
        DebugLogPoll::WorkerExited => Err(owned("Debug log export worker exited unexpectedly")),
        DebugLogPoll::ChannelPoisoned => Err(owned("Debug log export status channel was poisoned")),
    };
    job.running = false;
    let text = match result {
        Ok(path) => {
            job.capture_active = true;
            job.reported_error = None;
            let mut text = owned("DEBUG logs: ");
            push_str(&mut text, path.as_str());
            push_str(
                &mut text,
                " — detailed capture stays on until exit. Reproduce the issue now; earlier filtered events cannot be recovered. Logs may contain local paths and lyrics; nothing is uploaded.",
            );
            text
        },
        Err(error) => {
            let mut text = owned("DEBUG log export failed: ");
            push_str(&mut text, error.as_str());
            text
        },
    };
    DebugLogPollOutcome { notice: Some(text), invalidate: true }
}

/// A live-capture failure is reported once: polling again with the same
/// error reports nothing.
pub proof fn law_live_error_reported_once(job: DebugLogJob, live_error: String)
    requires
        job.capture_active,
    ensures
        !reports_live_error(
            DebugLogJob {
                running: job.running,
                capture_active: job.capture_active,
                reported_error: Some(live_error),
            },
            Some(live_error),
        ),
{
}

} // verus!

