//! Start-up helpers: the developer window size and the debug screenshot.
use vstd::prelude::*;

use crate::settings::{debug_settings_tab, spec_debug_settings_tab, SettingsTab};
use crate::song_workspace::Confirmation;
use crate::text::{ascii_lowercase, chars_equal, chars_of, owned, to_ascii_lowercase};
use crate::ui_api::{action_view, button, plain_button, UiDomain};

verus! {

pub open spec fn is_ascii_digit(c: char) -> bool {
    '0' <= c && c <= '9'
}

/// The number written by the decimal digits `s`.
pub open spec fn digits_value(s: Seq<char>) -> nat
    decreases s.len(),
{
    if s.len() == 0 {
        0
    } else {
        digits_value(s.drop_last()) * 10 + ((s.last() as u32) - 48) as nat
    }
}

/// Every character of `s` is an ASCII digit.
pub open spec fn all_digits(s: Seq<char>) -> bool {
    forall|i: int| 0 <= i < s.len() ==> is_ascii_digit(#[trigger] s[i])
}

/// What `str::parse::<u32>` gives: an optional `+`, then one or more ASCII
/// digits whose value fits in 32 bits.
pub open spec fn spec_parse_u32(s: Seq<char>) -> Option<u32> {
    let body = if s.len() > 0 && s[0] == '+' {
        s.drop_first()
    } else {
        s
    };
    if body.len() > 0 && all_digits(body) && digits_value(body) <= u32::MAX {
        Some(digits_value(body) as u32)
    } else {
        None
    }
}

/// Parses an unsigned 32-bit decimal number.
pub fn parse_u32(s: &Vec<char>) -> (n: Option<u32>)
    ensures
        n == spec_parse_u32(s@),
{
    let start: usize = if s.len() > 0 && s[0] == '+' {
        1
    } else {
        0
    };
    let ghost body = if s@.len() > 0 && s@[0] == '+' {
        s@.drop_first()
    } else {
        s@
    };
    assert(body =~= s@.skip(start as int));
    if start == s.len() {
        return None;
    }
    let mut value: u64 = 0;
    let mut overflow = false;
    let mut i: usize = start;
    while i < s.len()
        invariant
            start <= i <= s.len(),
            body == s@.skip(start as int),
            body == (if s@.len() > 0 && s@[0] == '+' {
                s@.drop_first()
            } else {
                s@
            }),
            forall|k: int| start <= k < i ==> is_ascii_digit(#[trigger] s@[k]),
            overflow ==> digits_value(body.take(i - start)) > u32::MAX,
            !overflow ==> value == digits_value(body.take(i - start)) && value <= u32::MAX,
        decreases s.len() - i,
    {
        let c = s[i];
        if !('0' <= c && c <= '9') {
            assert(body[i - start] == c);
            assert(!is_ascii_digit(body[i - start]));
            return None;
        }
        proof {
            assert(body.take(i - start + 1).drop_last() =~= body.take(i - start));
            assert(body.take(i - start + 1).last() == c);
        }
        let d = (c as u32 - 48) as u64;
        if !overflow {
            let next = value * 10 + d;
            if next > 4294967295 {
                overflow = true;
            } else {
                value = next;
            }
        }
        i = i + 1;
    }
    assert(body.take(s.len() - start) =~= body);
    assert forall|k: int| 0 <= k < body.len() implies is_ascii_digit(#[trigger] body[k]) by {
        assert(body[k] == s@[start + k]);
    }
    assert(all_digits(body));
    if overflow {
        None
    } else {
        Some(value as u32)
    }
}

/// The position of the first `c` in `s`.
pub open spec fn find_char(s: Seq<char>, c: char) -> Option<int>
    decreases s.len(),
{
    if s.len() == 0 {
        None
    } else if s[0] == c {
        Some(0)
    } else {
        match find_char(s.drop_first(), c) {
            Some(i) => Some(i + 1),
            None => None,
        }
    }
}

proof fn lemma_find_char(s: Seq<char>, c: char, i: int)
    requires
        0 <= i <= s.len(),
        forall|k: int| 0 <= k < i ==> #[trigger] s[k] != c,
        i == s.len() || s[i] == c,
    ensures
        find_char(s, c) == if i == s.len() {
            None::<int>
        } else {
            Some(i)
        },
    decreases i,
{
    if i > 0 {
        let t = s.drop_first();
        assert forall|k: int| 0 <= k < i - 1 implies #[trigger] t[k] != c by {
            assert(t[k] == s[k + 1]);
        }
        lemma_find_char(t, c, i - 1);
    }
}

pub open spec fn spec_window_size(value: Seq<char>) -> Option<(u32, u32)> {
    match find_char(value, 'x') {
        None => None,
        Some(i) => match (spec_parse_u32(value.take(i)), spec_parse_u32(value.skip(i + 1))) {
            (Some(w), Some(h)) => Some((w, h)),
            _ => None,
        },
    }
}

/// A developer window size written `WIDTHxHEIGHT`, e.g. `560x900`; anything
/// else is no size.
pub fn parse_window_size(value: &str) -> (size: Option<(u32, u32)>)
    ensures
        size == spec_window_size(value@),
{
    let chars = chars_of(value);
    let mut i: usize = 0;
    while i < chars.len() && chars[i] != 'x'
        invariant
            i <= chars.len(),
            forall|k: int| 0 <= k < i ==> #[trigger] chars@[k] != 'x',
        decreases chars.len() - i,
    {
        i = i + 1;
    }
    proof {
        lemma_find_char(chars@, 'x', i as int);
    }
    if i == chars.len() {
        return None;
    }
    let mut width: Vec<char> = Vec::new();
    let mut j: usize = 0;
    while j < i
        invariant
            i < chars.len(),
            j <= i,
            width@ == chars@.take(j as int),
        decreases i - j,
    {
        width.push(chars[j]);
        j = j + 1;
        assert(width@ =~= chars@.take(j as int));
    }
    let mut height: Vec<char> = Vec::new();
    let mut k: usize = i + 1;
    while k < chars.len()
        invariant
            i < chars.len(),
            i + 1 <= k <= chars.len(),
            height@ == chars@.subrange(i + 1, k as int),
        decreases chars.len() - k,
    {
        height.push(chars[k]);
        k = k + 1;
        assert(height@ =~= chars@.subrange(i + 1, k as int));
    }
    assert(height@ =~= chars@.skip(i + 1));
    match (parse_u32(&width), parse_u32(&height)) {
        (Some(w), Some(h)) => Some((w, h)),
        _ => None,
    }
}

/// What `str::parse::<i64>` gives: an optional sign, then one or more ASCII
/// digits whose signed value fits in 64 bits.
pub open spec fn spec_parse_i64(s: Seq<char>) -> Option<i64> {
    let negative = s.len() > 0 && s[0] == '-';
    let body = if s.len() > 0 && (s[0] == '+' || s[0] == '-') {
        s.drop_first()
    } else {
        s
    };
    let value: int = if negative {
        -(digits_value(body) as int)
    } else {
        digits_value(body) as int
    };
    if body.len() > 0 && all_digits(body) && i64::MIN <= value <= i64::MAX {
        Some(value as i64)
    } else {
        None
    }
}

/// Parses a signed 64-bit decimal number.
pub fn parse_i64(s: &Vec<char>) -> (n: Option<i64>)
    ensures
        n == spec_parse_i64(s@),
{
    let negative = s.len() > 0 && s[0] == '-';
    let start: usize = if s.len() > 0 && (s[0] == '+' || s[0] == '-') {
        1
    } else {
        0
    };
    let ghost body = if s@.len() > 0 && (s@[0] == '+' || s@[0] == '-') {
        s@.drop_first()
    } else {
        s@
    };
    assert(body =~= s@.skip(start as int));
    if start == s.len() {
        return None;
    }
    // The magnitude allowed: 2^63 for a negative number, 2^63 - 1 otherwise.
    let limit: u64 = if negative {
        9223372036854775808
    } else {
        9223372036854775807
    };
    let mut value: u64 = 0;
    let mut overflow = false;
    let mut i: usize = start;
    while i < s.len()
        invariant
            start <= i <= s.len(),
            body == s@.skip(start as int),
            body == (if s@.len() > 0 && (s@[0] == '+' || s@[0] == '-') {
                s@.drop_first()
            } else {
                s@
            }),
            negative == (s@.len() > 0 && s@[0] == '-'),
            limit == (if negative {
                9223372036854775808u64
            } else {
                9223372036854775807u64
            }),
            forall|k: int| start <= k < i ==> is_ascii_digit(#[trigger] s@[k]),
            overflow ==> digits_value(body.take(i - start)) > limit,
            !overflow ==> value == digits_value(body.take(i - start)) && value <= limit,
        decreases s.len() - i,
    {
        let c = s[i];
        if !('0' <= c && c <= '9') {
            assert(body[i - start] == c);
            assert(!is_ascii_digit(body[i - start]));
            return None;
        }
        proof {
            assert(body.take(i - start + 1).drop_last() =~= body.take(i - start));
            assert(body.take(i - start + 1).last() == c);
        }
        let d = (c as u32 - 48) as u64;
        assert(d <= 9);
        if !overflow {
            if value > (limit - d) / 10 {
                assert(value * 10 + d > limit) by (nonlinear_arith)
                    requires
                        value > (limit - d) / 10,
                        d <= limit,
                ;
                overflow = true;
            } else {
                assert(value * 10 + d <= limit) by (nonlinear_arith)
                    requires
                        value <= (limit - d) / 10,
                        d <= limit,
                ;
                value = value * 10 + d;
            }
        } else {
            proof {
                let prev = digits_value(body.take(i - start));
                assert(prev * 10 + (d as int) >= prev) by (nonlinear_arith)
                    requires
                        prev >= 0,
                        d >= 0,
                ;
            }
        }
        i = i + 1;
    }
    assert(body.take(s.len() - start) =~= body);
    assert forall|k: int| 0 <= k < body.len() implies is_ascii_digit(#[trigger] body[k]) by {
        assert(body[k] == s@[start + k]);
    }
    assert(all_digits(body));
    if overflow {
        None
    } else if negative {
        if value == 9223372036854775808 {
            Some(-9223372036854775808i64)
        } else {
            Some(-(value as i64))
        }
    } else {
        Some(value as i64)
    }
}

/// How the studio window is shown.
#[derive(Clone, Copy, Debug, PartialEq, Eq)]
pub enum WindowModeChoice {
    Windowed,
    /// Borderless full screen on the primary monitor.
    BorderlessPrimary,
    /// Borderless full screen on the monitor the window opens on.
    BorderlessCurrent,
}

/// How the window's colour is composited with what lies behind it.
#[derive(Clone, Copy, Debug, PartialEq, Eq)]
pub enum CompositeAlpha {
    Opaque,
    PreMultiplied,
}

/// The window theme the studio asks the desktop for.
#[derive(Clone, Copy, Debug, PartialEq, Eq)]
pub enum WindowTheme {
    Light,
    Dark,
}

/// The studio window: its title and application id, size and mode, and
/// how it is drawn. The studio draws its own chrome, so the desktop's title
/// bar and buttons are off.
#[derive(Clone, Copy, Debug, PartialEq, Eq)]
pub struct WindowPlan {
    pub title: &'static str,
    pub app_id: &'static str,
    pub width: u32,
    pub height: u32,
    pub mode: WindowModeChoice,
    pub decorations: bool,
    pub transparent: bool,
    pub composite_alpha: CompositeAlpha,
    pub resizable: bool,
    pub theme: WindowTheme,
    /// Whether the desktop's minimise, maximise and close buttons are on.
    pub desktop_buttons: bool,
}

/// The window the studio opens with: titled `Uta! Studio`, undecorated,
/// transparent with pre-multiplied alpha, resizable, without the desktop's
/// buttons, in the dark or light theme. A developer size gives a window of
/// exactly that size; otherwise the window is 1280×720 and, when a developer
/// start-up opens a song, the activity panel or a history entry
/// (`debug_landing`), full screen on the primary monitor; else full screen
/// where configured, else windowed.
pub fn studio_window_plan(
    developer_size: Option<(u32, u32)>,
    debug_landing: bool,
    fullscreen: Option<bool>,
    dark: bool,
) -> (plan: WindowPlan)
    ensures
        plan.title == "Uta! Studio",
        plan.app_id == "com.uta-studio.desktop",
        (plan.width, plan.height) == (match developer_size {
            Some(size) => size,
            None => (1280u32, 720u32),
        }),
        plan.mode == (if developer_size is Some {
            WindowModeChoice::Windowed
        } else if debug_landing {
            WindowModeChoice::BorderlessPrimary
        } else if fullscreen == Some(true) {
            WindowModeChoice::BorderlessCurrent
        } else {
            WindowModeChoice::Windowed
        }),
        !plan.decorations,
        plan.transparent,
        plan.composite_alpha == CompositeAlpha::PreMultiplied,
        plan.resizable,
        plan.theme == (if dark {
            WindowTheme::Dark
        } else {
            WindowTheme::Light
        }),
        !plan.desktop_buttons,
{
    let (width, height) = match developer_size {
        Some(size) => size,
        None => (1280, 720),
    };
    let mode = if developer_size.is_some() {
        WindowModeChoice::Windowed
    } else if debug_landing {
        WindowModeChoice::BorderlessPrimary
    } else if fullscreen == Some(true) {
        WindowModeChoice::BorderlessCurrent
    } else {
        WindowModeChoice::Windowed
    };
    WindowPlan {
        title: "Uta! Studio",
        app_id: "com.uta-studio.desktop",
        width,
        height,
        mode,
        decorations: false,
        transparent: true,
        composite_alpha: CompositeAlpha::PreMultiplied,
        resizable: true,
        theme: if dark {
            WindowTheme::Dark
        } else {
            WindowTheme::Light
        },
        desktop_buttons: false,
    }
}

/// The page a developer start-up can open on.
#[derive(Clone, Copy, Debug, PartialEq, Eq)]
pub enum StartRoute {
    Library,
    Settings,
    SongDetail,
    AnalysisInspect,
}

/// The navigation state that developer start-up options act on.
pub struct StartNavigation {
    pub route: StartRoute,
    pub settings_tab: SettingsTab,
    pub selected_song: Option<String>,
    pub activity_open: bool,
    pub selected_history: Option<i64>,
    /// The library shows the analysis queue.
    pub queue_view: bool,
    pub selected_node: Option<String>,
    pub model_panel_open: bool,
}

/// The developer start-up options, as read from the environment: the
/// values of those that carry one, and whether each flag is set.
pub struct DebugNavigationOptions {
    pub open_settings: Option<String>,
    pub open_song: Option<String>,
    pub open_activity: bool,
    pub open_history: Option<String>,
    pub select_node: Option<String>,
    pub open_inspect: bool,
    pub open_model_panel: bool,
}

/// The navigation after applying the options in order: a settings page
/// opens Settings on that page; a song opens its detail page; a history id
/// that parses selects that run and shows the queue in the library; the
/// inspector route comes last, so it wins over the others.
pub open spec fn spec_debug_navigation(
    base: StartNavigation,
    options: DebugNavigationOptions,
) -> StartNavigation {
    let n1 = match options.open_settings {
        Some(tab) => StartNavigation {
            route: StartRoute::Settings,
            settings_tab: spec_debug_settings_tab(tab@),
            ..base
        },
        None => base,
    };
    let n2 = match options.open_song {
        Some(hash) => StartNavigation {
            selected_song: Some(hash),
            route: StartRoute::SongDetail,
            ..n1
        },
        None => n1,
    };
    let n3 = if options.open_activity {
        StartNavigation { activity_open: true, ..n2 }
    } else {
        n2
    };
    let n4 = match options.open_history {
        Some(id) => match spec_parse_i64(id@) {
            Some(id) => StartNavigation {
                selected_history: Some(id),
                route: StartRoute::Library,
                queue_view: true,
                ..n3
            },
            None => n3,
        },
        None => n3,
    };
    let n5 = match options.select_node {
        Some(node) => StartNavigation { selected_node: Some(node), ..n4 },
        None => n4,
    };
    let n6 = if options.open_inspect {
        StartNavigation { route: StartRoute::AnalysisInspect, queue_view: true, ..n5 }
    } else {
        n5
    };
    if options.open_model_panel {
        StartNavigation { model_panel_open: true, ..n6 }
    } else {
        n6
    }
}

/// Applies the developer start-up options to the navigation state.
pub fn debug_navigation(base: StartNavigation, options: DebugNavigationOptions) -> (navigation:
    StartNavigation)
    ensures
        navigation == spec_debug_navigation(base, options),
{
    let mut n = base;
    if let Some(tab) = &options.open_settings {
        n.route = StartRoute::Settings;
        n.settings_tab = debug_settings_tab(tab.as_str());
    }
    if let Some(hash) = options.open_song {
        n.selected_song = Some(hash);
        n.route = StartRoute::SongDetail;
    }
    if options.open_activity {
        n.activity_open = true;
    }
    if let Some(id) = &options.open_history {
        if let Some(id) = parse_i64(&chars_of(id.as_str())) {
            n.selected_history = Some(id);
            n.route = StartRoute::Library;
            n.queue_view = true;
        }
    }
    if let Some(node) = options.select_node {
        n.selected_node = Some(node);
    }
    if options.open_inspect {
        n.route = StartRoute::AnalysisInspect;
        n.queue_view = true;
    }
    if options.open_model_panel {
        n.model_panel_open = true;
    }
    n
}

/// A debug screenshot waits for the start-up banner and then this many
/// settled frames, so that deferred refreshes and the final fit have run.
pub const SCREENSHOT_SETTLE_FRAMES: u32 = 120;

/// The state of a requested debug screenshot.
pub struct DebugScreenshotState {
    /// Where to save it; `None` when no screenshot was asked for.
    pub path: Option<String>,
    pub requested: bool,
    pub settled_frames: u32,
}

/// One frame of the debug-screenshot schedule: returns the path to capture
/// to on the frame the screenshot is due, once.
pub fn capture_debug_screenshot(state: &mut DebugScreenshotState, banner_done: bool) -> (capture:
    Option<String>)
    ensures
        ({
            let waiting = old(state).path is None || old(state).requested || !banner_done;
            let settled = if old(state).settled_frames < u32::MAX {
                old(state).settled_frames + 1
            } else {
                old(state).settled_frames as int
            };
            &&& final(state).path == old(state).path
            &&& waiting ==> capture is None && final(state).requested == old(state).requested
                && final(state).settled_frames == old(state).settled_frames
            &&& !waiting ==> final(state).settled_frames == settled
            &&& !waiting && settled < SCREENSHOT_SETTLE_FRAMES ==> capture is None
                && !final(state).requested
            &&& !waiting && settled >= SCREENSHOT_SETTLE_FRAMES ==> final(state).requested
                && (capture matches Some(p) && p@ == old(state).path->0@)
        }),
{
    let path = match &state.path {
        Some(path) => path,
        None => {
            return None;
        },
    };
    if state.requested || !banner_done {
        return None;
    }
    if state.settled_frames < u32::MAX {
        state.settled_frames = state.settled_frames + 1;
    }
    if state.settled_frames < SCREENSHOT_SETTLE_FRAMES {
        return None;
    }
    let capture = owned(path.as_str());
    state.requested = true;
    Some(capture)
}


/// Where the user asked to go while work could be lost.
#[derive(Clone, Copy, Debug, PartialEq, Eq)]
pub enum PendingLeave {
    Exit,
    Back,
    Home,
    Documentation,
}

/// Asks before leaving: closing the studio or leaving the editor, warning of
/// unsaved chart edits when there are some, else of running work.
pub fn leave_confirmation(destination: PendingLeave, unsaved_edits: bool) -> (dialog: Confirmation)
    ensures
        dialog.heading == (if destination == PendingLeave::Exit {
            "Close Uta Studio?"
        } else {
            "Leave the editor?"
        }),
        dialog.body@ == (if unsaved_edits {
            "This chart has unsaved edits. Leaving now discards those edits. Source media is never changed."@
        } else {
            "A scan, setup, diagnostic, or rendering task is still active. Closing now interrupts that work. Source media is never changed."@
        }),
        action_view(dialog.cancel) == button("Stay"@, UiDomain::App, "CancelLeave"@, Seq::empty()),
        dialog.confirm matches Some(c) && action_view(c) == button(
            if destination == PendingLeave::Exit {
                "Close"@
            } else {
                "Leave"@
            },
            UiDomain::App,
            "ConfirmLeave"@,
            Seq::empty(),
        ),
{
    let (heading, action) = match destination {
        PendingLeave::Exit => ("Close Uta Studio?", "Close"),
        _ => ("Leave the editor?", "Leave"),
    };
    let body = if unsaved_edits {
        owned("This chart has unsaved edits. Leaving now discards those edits. Source media is never changed.")
    } else {
        owned(
            "A scan, setup, diagnostic, or rendering task is still active. Closing now interrupts that work. Source media is never changed.",
        )
    };
    Confirmation {
        heading,
        body,
        cancel: plain_button("Stay", UiDomain::App, "CancelLeave"),
        confirm: Some(plain_button(action, UiDomain::App, "ConfirmLeave")),
    }
}


/// A developer font scale: a percentage, kept within 80–140; anything that
/// is not a number is no scale.
pub fn debug_font_scale(value: &str) -> (percent: Option<u32>)
    ensures
        percent == match spec_parse_u32(value@) {
            Some(p) => Some(
                if p < 80 {
                    80u32
                } else if p > 140 {
                    140u32
                } else {
                    p
                },
            ),
            None => None,
        },
{
    match parse_u32(&chars_of(value)) {
        Some(p) => Some(
            if p < 80 {
                80
            } else if p > 140 {
                140
            } else {
                p
            },
        ),
        None => None,
    }
}

pub open spec fn spec_debug_dark_mode(value: Seq<char>, configured: Option<bool>) -> Option<bool> {
    let v = ascii_lowercase(crate::song_detail::trimmed(value));
    if v == "dark"@ {
        Some(true)
    } else if v == "light"@ {
        Some(false)
    } else {
        configured
    }
}

/// A developer theme override: `dark` or `light` (white space and case do
/// not matter) replaces the configured choice; anything else keeps it.
pub fn debug_dark_mode(value: &str, configured: Option<bool>) -> (dark: Option<bool>)
    ensures
        dark == spec_debug_dark_mode(value@, configured),
{
    let v = to_ascii_lowercase(&crate::song_detail::trim_chars(&chars_of(value)));
    if chars_equal(&v, &chars_of("dark")) {
        Some(true)
    } else if chars_equal(&v, &chars_of("light")) {
        Some(false)
    } else {
        configured
    }
}

} // verus!
