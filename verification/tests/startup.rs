use uta_studio_desktop::settings::SettingsTab;
use uta_studio_desktop::startup::{
    debug_navigation, parse_i64, studio_window_plan, DebugNavigationOptions, StartNavigation,
    StartRoute, WindowModeChoice, CompositeAlpha, WindowTheme,
    capture_debug_screenshot, debug_dark_mode, debug_font_scale, leave_confirmation, parse_u32, parse_window_size, DebugScreenshotState, PendingLeave,
    SCREENSHOT_SETTLE_FRAMES,
};

fn chars(s: &str) -> Vec<char> {
    s.chars().collect()
}

#[test]
fn window_size_reads_width_and_height() {
    assert_eq!(parse_window_size("560x900"), Some((560, 900)));
    assert_eq!(parse_window_size("+1280x+720"), Some((1280, 720)));
}

#[test]
fn window_size_rejects_malformed_values() {
    assert_eq!(parse_window_size("560"), None);
    assert_eq!(parse_window_size("x900"), None);
    assert_eq!(parse_window_size("560x"), None);
    assert_eq!(parse_window_size("560X900"), None);
    assert_eq!(parse_window_size("560x900x2"), None);
    assert_eq!(parse_window_size("-5x900"), None);
    assert_eq!(parse_window_size(" 560x900"), None);
    assert_eq!(parse_window_size("4294967296x1"), None);
}

#[test]
fn parse_u32_agrees_with_std() {
    for text in ["0", "42", "+7", "+", "", "4294967295", "4294967296", "12a", "007", "-1"] {
        assert_eq!(parse_u32(&chars(text)), text.parse::<u32>().ok(), "{text}");
    }
}

#[test]
fn screenshot_waits_for_banner_and_settled_frames() {
    let mut state = DebugScreenshotState {
        path: Some("/tmp/shot.png".to_string()),
        requested: false,
        settled_frames: 0,
    };
    assert_eq!(capture_debug_screenshot(&mut state, false), None);
    assert_eq!(state.settled_frames, 0);
    for _ in 1..SCREENSHOT_SETTLE_FRAMES {
        assert_eq!(capture_debug_screenshot(&mut state, true), None);
    }
    assert_eq!(state.settled_frames, SCREENSHOT_SETTLE_FRAMES - 1);
    assert_eq!(
        capture_debug_screenshot(&mut state, true),
        Some("/tmp/shot.png".to_string())
    );
    assert!(state.requested);
    assert_eq!(capture_debug_screenshot(&mut state, true), None);
    assert_eq!(state.settled_frames, SCREENSHOT_SETTLE_FRAMES);
}

#[test]
fn screenshot_without_path_never_captures() {
    let mut state = DebugScreenshotState {
        path: None,
        requested: false,
        settled_frames: 500,
    };
    assert_eq!(capture_debug_screenshot(&mut state, true), None);
    assert_eq!(state.settled_frames, 500);
    assert!(!state.requested);
}

#[test]
fn leaving_warns_about_what_would_be_lost() {
    let exit = leave_confirmation(PendingLeave::Exit, false);
    assert_eq!(exit.heading, "Close Uta Studio?");
    assert!(exit.body.starts_with("A scan, setup, diagnostic, or rendering task is still active."));
    assert_eq!(exit.confirm.unwrap().0, "Close");
    assert_eq!(exit.cancel.0, "Stay");
    let back = leave_confirmation(PendingLeave::Home, true);
    assert_eq!(back.heading, "Leave the editor?");
    assert!(back.body.starts_with("This chart has unsaved edits."));
    assert_eq!(back.confirm.unwrap().0, "Leave");
}

#[test]
fn developer_font_scale_is_clamped() {
    assert_eq!(debug_font_scale("100"), Some(100));
    assert_eq!(debug_font_scale("50"), Some(80));
    assert_eq!(debug_font_scale("999"), Some(140));
    assert_eq!(debug_font_scale(" 100"), None);
    assert_eq!(debug_font_scale("big"), None);
}

#[test]
fn developer_theme_overrides_only_known_names() {
    assert_eq!(debug_dark_mode(" Dark ", None), Some(true));
    assert_eq!(debug_dark_mode("LIGHT", Some(true)), Some(false));
    assert_eq!(debug_dark_mode("sepia", Some(true)), Some(true));
    assert_eq!(debug_dark_mode("sepia", None), None);
}

#[test]
fn parse_i64_agrees_with_std() {
    for text in [
        "0", "42", "-42", "+7", "-", "+", "", "9223372036854775807", "9223372036854775808",
        "-9223372036854775808", "-9223372036854775809", "12a", "--1", "007",
    ] {
        assert_eq!(parse_i64(&chars(text)), text.parse::<i64>().ok(), "{text}");
    }
}

#[test]
fn a_developer_size_forces_a_window_of_that_size() {
    let plan = studio_window_plan(Some((560, 900)), true, Some(true), false);
    assert_eq!((plan.width, plan.height, plan.mode), (560, 900, WindowModeChoice::Windowed));
    assert_eq!(plan.theme, WindowTheme::Light);
}

#[test]
fn window_mode_without_a_developer_size() {
    let plan = studio_window_plan(None, true, Some(false), true);
    assert_eq!((plan.width, plan.height, plan.mode), (1280, 720, WindowModeChoice::BorderlessPrimary));
    assert_eq!(
        studio_window_plan(None, false, Some(true), true).mode,
        WindowModeChoice::BorderlessCurrent
    );
    assert_eq!(studio_window_plan(None, false, None, true).mode, WindowModeChoice::Windowed);
    assert_eq!(studio_window_plan(None, false, Some(false), true).mode, WindowModeChoice::Windowed);
}

#[test]
fn native_window_preserves_existing_desktop_geometry() {
    let window = studio_window_plan(None, false, None, true);
    assert_eq!(window.title, "Uta! Studio");
    assert_eq!(window.width, 1280);
    assert_eq!(window.height, 720);
    assert!(!window.decorations);
    assert!(window.transparent);
    assert_eq!(window.composite_alpha, CompositeAlpha::PreMultiplied);
    assert_eq!(window.theme, WindowTheme::Dark);
}

fn start() -> StartNavigation {
    StartNavigation {
        route: StartRoute::Library,
        settings_tab: SettingsTab::General,
        selected_song: None,
        activity_open: false,
        selected_history: None,
        queue_view: false,
        selected_node: None,
        model_panel_open: false,
    }
}

fn no_options() -> DebugNavigationOptions {
    DebugNavigationOptions {
        open_settings: None,
        open_song: None,
        open_activity: false,
        open_history: None,
        select_node: None,
        open_inspect: false,
        open_model_panel: false,
    }
}

#[test]
fn no_debug_options_keep_the_navigation() {
    let n = debug_navigation(start(), no_options());
    assert_eq!(n.route, StartRoute::Library);
    assert_eq!(n.settings_tab, SettingsTab::General);
    assert_eq!(n.selected_song, None);
    assert!(!n.activity_open && !n.queue_view && !n.model_panel_open);
}

#[test]
fn debug_settings_option_opens_the_named_page() {
    let mut options = no_options();
    options.open_settings = Some(" Runtime ".to_string());
    let n = debug_navigation(start(), options);
    assert_eq!(n.route, StartRoute::Settings);
    assert_eq!(n.settings_tab, SettingsTab::Models);
}

#[test]
fn later_debug_options_win_the_route() {
    let mut options = no_options();
    options.open_settings = Some("storage".to_string());
    options.open_song = Some("hash-1".to_string());
    let n = debug_navigation(start(), options);
    assert_eq!(n.route, StartRoute::SongDetail);
    assert_eq!(n.settings_tab, SettingsTab::Storage);
    assert_eq!(n.selected_song.as_deref(), Some("hash-1"));

    let mut options = no_options();
    options.open_song = Some("hash-1".to_string());
    options.open_history = Some("42".to_string());
    options.select_node = Some("separation".to_string());
    options.open_activity = true;
    options.open_model_panel = true;
    let n = debug_navigation(start(), options);
    assert_eq!(n.route, StartRoute::Library);
    assert_eq!(n.selected_history, Some(42));
    assert!(n.queue_view && n.activity_open && n.model_panel_open);
    assert_eq!(n.selected_node.as_deref(), Some("separation"));

    let mut options = no_options();
    options.open_history = Some("7".to_string());
    options.open_inspect = true;
    assert_eq!(debug_navigation(start(), options).route, StartRoute::AnalysisInspect);
}

#[test]
fn an_unparsable_history_id_is_ignored() {
    let mut options = no_options();
    options.open_history = Some("latest".to_string());
    let n = debug_navigation(start(), options);
    assert_eq!(n.route, StartRoute::Library);
    assert_eq!(n.selected_history, None);
    assert!(!n.queue_view);
}
