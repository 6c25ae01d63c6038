//! The discoverable UI interaction API: every button, menu item, context-menu
//! entry and pointer gesture has a stable command id and an access class.
use vstd::prelude::*;

use crate::text::{
    char_is_uppercase, char_to_lowercase, chars_equal, chars_of, contains_str, ends_with_str, has_suffix,
    is_infix, owned, push_char, push_str, is_upper_case, lower_case_of, ascii_lower, ascii_lowercase,
};

verus! {

/// Commands of the application shell.
pub open spec fn spec_app_commands() -> Seq<&'static str> {
    seq![
        "ui.app.back",
        "ui.app.home",
        "ui.app.toggle_global_search",
        "ui.app.folders",
        "ui.app.settings",
        "ui.app.documentation",
        "ui.app.open_documentation",
        "ui.app.documentation_back",
        "ui.app.documentation_forward",
        "ui.app.toggle_activity",
        "ui.app.close_activity",
        "ui.app.open_about",
        "ui.app.close_about",
        "ui.app.toggle_fullscreen",
        "ui.app.open_log",
        "ui.app.start_debug_logging",
        "ui.app.run_diagnostics",
        "ui.app.cancel_leave",
        "ui.app.confirm_leave",
    ]
}

/// Commands of the application shell.
pub fn app_commands() -> (commands: Vec<&'static str>)
    ensures
        commands@ == spec_app_commands(),
{
    let commands = vec![
        "ui.app.back",
        "ui.app.home",
        "ui.app.toggle_global_search",
        "ui.app.folders",
        "ui.app.settings",
        "ui.app.documentation",
        "ui.app.open_documentation",
        "ui.app.documentation_back",
        "ui.app.documentation_forward",
        "ui.app.toggle_activity",
        "ui.app.close_activity",
        "ui.app.open_about",
        "ui.app.close_about",
        "ui.app.toggle_fullscreen",
        "ui.app.open_log",
        "ui.app.start_debug_logging",
        "ui.app.run_diagnostics",
        "ui.app.cancel_leave",
        "ui.app.confirm_leave",
    ];
    assert(commands@ =~= spec_app_commands());
    commands
}

/// Commands of the song library.
pub open spec fn spec_library_commands() -> Seq<&'static str> {
    seq![
        "ui.library.set_library_view",
        "ui.library.set_library_facet",
        "ui.library.load_more_songs",
        "ui.library.apply_library_search",
        "ui.library.clear_library_search",
        "ui.library.toggle_library_layout",
        "ui.library.toggle_export_all_menu",
        "ui.library.export_all_utz",
        "ui.library.export_all_ultra_star",
        "ui.library.open_library_select",
        "ui.library.select_library_value",
        "ui.library.analyze_all",
        "ui.library.rescan_library",
        "ui.library.choose_folder",
        "ui.library.choose_export_folder",
        "ui.library.clear_export_folder",
        "ui.library.select_folder_root",
        "ui.library.folder_up",
        "ui.library.open_folder_entry",
        "ui.library.reveal_folder_entry",
        "ui.library.dismiss_folder_context",
        "ui.library.request_remove_folder",
        "ui.library.cancel_remove_folder",
        "ui.library.confirm_remove_folder",
        "ui.library.open_song",
        "ui.library.analyze_song",
        "ui.library.choose_editor_file",
        "ui.library.open_editor",
        "ui.library.export_utz",
        "ui.library.export_ultra_star",
        "ui.library.open_source",
        "ui.library.reveal_source",
        "ui.library.dismiss_song_context",
        "ui.library.play_library_song",
        "ui.library.toggle_library_playback",
        "ui.library.seek_library_relative",
        "ui.library.previous_library_song",
        "ui.library.next_library_song",
        "ui.library.toggle_library_shuffle",
        "ui.library.cycle_library_repeat",
        "ui.library.adjust_library_volume",
        "ui.library.toggle_library_mute",
        "ui.library.toggle_library_audio_source_menu",
        "ui.library.select_library_audio_source",
        "ui.library.toggle_library_queue",
    ]
}

/// Commands of the song library.
pub fn library_commands() -> (commands: Vec<&'static str>)
    ensures
        commands@ == spec_library_commands(),
{
    let commands = vec![
        "ui.library.set_library_view",
        "ui.library.set_library_facet",
        "ui.library.load_more_songs",
        "ui.library.apply_library_search",
        "ui.library.clear_library_search",
        "ui.library.toggle_library_layout",
        "ui.library.toggle_export_all_menu",
        "ui.library.export_all_utz",
        "ui.library.export_all_ultra_star",
        "ui.library.open_library_select",
        "ui.library.select_library_value",
        "ui.library.analyze_all",
        "ui.library.rescan_library",
        "ui.library.choose_folder",
        "ui.library.choose_export_folder",
        "ui.library.clear_export_folder",
        "ui.library.select_folder_root",
        "ui.library.folder_up",
        "ui.library.open_folder_entry",
        "ui.library.reveal_folder_entry",
        "ui.library.dismiss_folder_context",
        "ui.library.request_remove_folder",
        "ui.library.cancel_remove_folder",
        "ui.library.confirm_remove_folder",
        "ui.library.open_song",
        "ui.library.analyze_song",
        "ui.library.choose_editor_file",
        "ui.library.open_editor",
        "ui.library.export_utz",
        "ui.library.export_ultra_star",
        "ui.library.open_source",
        "ui.library.reveal_source",
        "ui.library.dismiss_song_context",
        "ui.library.play_library_song",
        "ui.library.toggle_library_playback",
        "ui.library.seek_library_relative",
        "ui.library.previous_library_song",
        "ui.library.next_library_song",
        "ui.library.toggle_library_shuffle",
        "ui.library.cycle_library_repeat",
        "ui.library.adjust_library_volume",
        "ui.library.toggle_library_mute",
        "ui.library.toggle_library_audio_source_menu",
        "ui.library.select_library_audio_source",
        "ui.library.toggle_library_queue",
    ];
    assert(commands@ =~= spec_library_commands());
    commands
}

/// Commands of the settings route.
pub open spec fn spec_settings_commands() -> Seq<&'static str> {
    seq![
        "ui.settings.settings_tab",
        "ui.settings.refresh_runtime_status",
        "ui.settings.open_model_downloads",
        "ui.settings.close_model_downloads",
        "ui.settings.open_settings_select",
        "ui.settings.select_settings_value",
        "ui.settings.set_model_backend",
        "ui.settings.set_model_device",
        "ui.settings.set_analysis_quality",
        "ui.settings.request_setup",
        "ui.settings.install_audio_model",
        "ui.settings.remove_audio_model",
        "ui.settings.cancel_setup",
        "ui.settings.confirm_setup",
        "ui.settings.toggle_theme",
        "ui.settings.adjust_ui_font_scale",
        "ui.settings.toggle_preserve_continuous_pitch",
        "ui.settings.toggle_analysis_quantization",
        "ui.settings.toggle_auto_analyze",
        "ui.settings.restore_analysis_defaults",
        "ui.settings.request_clear_cache",
        "ui.settings.cancel_clear_cache",
        "ui.settings.confirm_clear_cache",
        "ui.settings.choose_fusion_agent_adapter",
        "ui.settings.clear_fusion_agent_adapter",
    ]
}

/// Commands of the settings route.
pub fn settings_commands() -> (commands: Vec<&'static str>)
    ensures
        commands@ == spec_settings_commands(),
{
    let commands = vec![
        "ui.settings.settings_tab",
        "ui.settings.refresh_runtime_status",
        "ui.settings.open_model_downloads",
        "ui.settings.close_model_downloads",
        "ui.settings.open_settings_select",
        "ui.settings.select_settings_value",
        "ui.settings.set_model_backend",
        "ui.settings.set_model_device",
        "ui.settings.set_analysis_quality",
        "ui.settings.request_setup",
        "ui.settings.install_audio_model",
        "ui.settings.remove_audio_model",
        "ui.settings.cancel_setup",
        "ui.settings.confirm_setup",
        "ui.settings.toggle_theme",
        "ui.settings.adjust_ui_font_scale",
        "ui.settings.toggle_preserve_continuous_pitch",
        "ui.settings.toggle_analysis_quantization",
        "ui.settings.toggle_auto_analyze",
        "ui.settings.restore_analysis_defaults",
        "ui.settings.request_clear_cache",
        "ui.settings.cancel_clear_cache",
        "ui.settings.confirm_clear_cache",
        "ui.settings.choose_fusion_agent_adapter",
        "ui.settings.clear_fusion_agent_adapter",
    ];
    assert(commands@ =~= spec_settings_commands());
    commands
}

/// Commands of the analysis and processing views.
pub open spec fn spec_analysis_commands() -> Seq<&'static str> {
    seq![
        "ui.analysis.start_analysis",
        "ui.analysis.start_queued_analysis",
        "ui.analysis.merge_selected_candidate_phrase",
        "ui.analysis.merge_selected_candidate_range",
        "ui.analysis.keep_authored_chart",
        "ui.analysis.select_analysis_history",
        "ui.analysis.open_song_analysis",
        "ui.analysis.open_song_model_selection",
        "ui.analysis.open_processing_studio",
        "ui.analysis.analyze_now",
        "ui.analysis.open_empty_processing_studio",
        "ui.analysis.select_workflow_node",
        "ui.analysis.move_workflow_node",
        "ui.analysis.duplicate_workflow_node",
        "ui.analysis.remove_workflow_node",
        "ui.analysis.set_workflow_node_model",
        "ui.analysis.set_workflow_separation_strategy",
        "ui.analysis.add_workflow_processor",
        "ui.analysis.add_optional_workflow_card",
        "ui.analysis.set_workflow_parameter",
        "ui.analysis.set_workflow_policy",
        "ui.analysis.adjust_workflow_priority",
        "ui.analysis.rebind_workflow_analyzer",
        "ui.analysis.save_workflow",
        "ui.analysis.preview_workflow",
        "ui.analysis.run_workflow",
        "ui.analysis.open_analysis_inspect",
        "ui.analysis.adjust_analysis_graph_zoom",
        "ui.analysis.toggle_analysis_mini_view",
        "ui.analysis.toggle_analysis_model_panel",
        "ui.analysis.close_analysis_model_panel",
        "ui.analysis.fit_analysis_graph",
        "ui.analysis.dismiss_analysis_node_context",
        "ui.analysis.request_clear_analysis_history",
        "ui.analysis.cancel_clear_analysis_history",
        "ui.analysis.confirm_clear_analysis_history",
        "ui.analysis.compare_node_attempt_with_previous",
        "ui.analysis.close_plan_preview",
        "ui.analysis.queue_exact_preview",
        "ui.analysis.toggle_plan_preview_output",
        "ui.analysis.reset_plan_preview_outputs",
        "ui.analysis.set_plan_preview_quality",
        "ui.analysis.reset_plan_preview_quality",
        "ui.analysis.open_analysis_log_viewer",
        "ui.analysis.close_analysis_log_viewer",
        "ui.analysis.request_delete_song_cache",
        "ui.analysis.cancel_analysis_run",
        "ui.analysis.cancel_delete_song_cache",
        "ui.analysis.confirm_delete_song_cache",
        "ui.analysis.request_delete_authored_chart",
        "ui.analysis.cancel_delete_authored_chart",
        "ui.analysis.confirm_delete_authored_chart",
        "ui.analysis.request_replace_authored_chart",
        "ui.analysis.cancel_replace_authored_chart",
        "ui.analysis.confirm_replace_authored_chart",
    ]
}

/// Commands of the analysis and processing views.
pub fn analysis_commands() -> (commands: Vec<&'static str>)
    ensures
        commands@ == spec_analysis_commands(),
{
    let commands = vec![
        "ui.analysis.start_analysis",
        "ui.analysis.start_queued_analysis",
        "ui.analysis.merge_selected_candidate_phrase",
        "ui.analysis.merge_selected_candidate_range",
        "ui.analysis.keep_authored_chart",
        "ui.analysis.select_analysis_history",
        "ui.analysis.open_song_analysis",
        "ui.analysis.open_song_model_selection",
        "ui.analysis.open_processing_studio",
        "ui.analysis.analyze_now",
        "ui.analysis.open_empty_processing_studio",
        "ui.analysis.select_workflow_node",
        "ui.analysis.move_workflow_node",
        "ui.analysis.duplicate_workflow_node",
        "ui.analysis.remove_workflow_node",
        "ui.analysis.set_workflow_node_model",
        "ui.analysis.set_workflow_separation_strategy",
        "ui.analysis.add_workflow_processor",
        "ui.analysis.add_optional_workflow_card",
        "ui.analysis.set_workflow_parameter",
        "ui.analysis.set_workflow_policy",
        "ui.analysis.adjust_workflow_priority",
        "ui.analysis.rebind_workflow_analyzer",
        "ui.analysis.save_workflow",
        "ui.analysis.preview_workflow",
        "ui.analysis.run_workflow",
        "ui.analysis.open_analysis_inspect",
        "ui.analysis.adjust_analysis_graph_zoom",
        "ui.analysis.toggle_analysis_mini_view",
        "ui.analysis.toggle_analysis_model_panel",
        "ui.analysis.close_analysis_model_panel",
        "ui.analysis.fit_analysis_graph",
        "ui.analysis.dismiss_analysis_node_context",
        "ui.analysis.request_clear_analysis_history",
        "ui.analysis.cancel_clear_analysis_history",
        "ui.analysis.confirm_clear_analysis_history",
        "ui.analysis.compare_node_attempt_with_previous",
        "ui.analysis.close_plan_preview",
        "ui.analysis.queue_exact_preview",
        "ui.analysis.toggle_plan_preview_output",
        "ui.analysis.reset_plan_preview_outputs",
        "ui.analysis.set_plan_preview_quality",
        "ui.analysis.reset_plan_preview_quality",
        "ui.analysis.open_analysis_log_viewer",
        "ui.analysis.close_analysis_log_viewer",
        "ui.analysis.request_delete_song_cache",
        "ui.analysis.cancel_analysis_run",
        "ui.analysis.cancel_delete_song_cache",
        "ui.analysis.confirm_delete_song_cache",
        "ui.analysis.request_delete_authored_chart",
        "ui.analysis.cancel_delete_authored_chart",
        "ui.analysis.confirm_delete_authored_chart",
        "ui.analysis.request_replace_authored_chart",
        "ui.analysis.cancel_replace_authored_chart",
        "ui.analysis.confirm_replace_authored_chart",
    ];
    assert(commands@ =~= spec_analysis_commands());
    commands
}

/// Commands of the chart, lyrics and song editors.
pub open spec fn spec_editor_commands() -> Seq<&'static str> {
    seq![
        "ui.editor.open_lyrics_editor",
        "ui.editor.close_lyrics_editor",
        "ui.editor.toggle_lyrics_input_mode",
        "ui.editor.toggle_lyrics_separate_stems",
        "ui.editor.search_lrclib_lyrics",
        "ui.editor.extract_lyrics",
        "ui.editor.previous_lrclib_candidate",
        "ui.editor.next_lrclib_candidate",
        "ui.editor.use_lrclib_plain",
        "ui.editor.use_lrclib_timed",
        "ui.editor.save_lyrics_editor",
        "ui.editor.save_lyrics_editor_and_run_downstream",
        "ui.editor.adjust_transcript_boundary",
        "ui.editor.preview_transcript_at",
        "ui.editor.open_language_editor",
        "ui.editor.close_language_editor",
        "ui.editor.toggle_language_reprocess",
        "ui.editor.toggle_language_picker",
        "ui.editor.select_analysis_language",
        "ui.editor.save_language_editor",
        "ui.editor.open_song_settings",
        "ui.editor.close_song_settings",
        "ui.editor.choose_background_video",
        "ui.editor.clear_background_video",
        "ui.editor.save_song_settings",
        "ui.editor.shift_song_key",
        "ui.editor.shift_song_tempo",
        "ui.editor.focus_chart_problem",
        "ui.editor.open_editor_select",
        "ui.editor.select_editor_value",
        "ui.editor.select_editor_word",
        "ui.editor.select_editor_track",
        "ui.editor.move_selection_to_track",
        "ui.editor.set_note_kind",
        "ui.editor.toggle_editor_file_menu",
        "ui.editor.dismiss_editor_file_menu",
        "ui.editor.save_editor_as_utz",
        "ui.editor.save_editor_as_ultra_star",
        "ui.editor.toggle_editor_layout_menu",
        "ui.editor.dismiss_editor_layout_menu",
        "ui.editor.dismiss_lyric_context",
        "ui.editor.dismiss_note_context",
        "ui.editor.select_waveform_source",
        "ui.editor.select_artifact_audition",
        "ui.editor.activate_artifact_audition",
        "ui.editor.select_artifact_waveform",
        "ui.editor.select_waveform_style",
        "ui.editor.dismiss_waveform_context",
        "ui.editor.toggle_evidence",
        "ui.editor.review_previous",
        "ui.editor.review_next",
        "ui.editor.mark_review_region",
        "ui.editor.accept_suggestion",
        "ui.editor.ignore_suggestion",
        "ui.editor.set_problems_filter",
        "ui.editor.apply_all_lyrics_edit",
        "ui.editor.extend_lyric_over_note",
        "ui.editor.dismiss_problems_panel",
        "ui.editor.dismiss_shortcuts_panel",
    ]
}

/// Commands of the chart, lyrics and song editors.
pub fn editor_commands() -> (commands: Vec<&'static str>)
    ensures
        commands@ == spec_editor_commands(),
{
    let commands = vec![
        "ui.editor.open_lyrics_editor",
        "ui.editor.close_lyrics_editor",
        "ui.editor.toggle_lyrics_input_mode",
        "ui.editor.toggle_lyrics_separate_stems",
        "ui.editor.search_lrclib_lyrics",
        "ui.editor.extract_lyrics",
        "ui.editor.previous_lrclib_candidate",
        "ui.editor.next_lrclib_candidate",
        "ui.editor.use_lrclib_plain",
        "ui.editor.use_lrclib_timed",
        "ui.editor.save_lyrics_editor",
        "ui.editor.save_lyrics_editor_and_run_downstream",
        "ui.editor.adjust_transcript_boundary",
        "ui.editor.preview_transcript_at",
        "ui.editor.open_language_editor",
        "ui.editor.close_language_editor",
        "ui.editor.toggle_language_reprocess",
        "ui.editor.toggle_language_picker",
        "ui.editor.select_analysis_language",
        "ui.editor.save_language_editor",
        "ui.editor.open_song_settings",
        "ui.editor.close_song_settings",
        "ui.editor.choose_background_video",
        "ui.editor.clear_background_video",
        "ui.editor.save_song_settings",
        "ui.editor.shift_song_key",
        "ui.editor.shift_song_tempo",
        "ui.editor.focus_chart_problem",
        "ui.editor.open_editor_select",
        "ui.editor.select_editor_value",
        "ui.editor.select_editor_word",
        "ui.editor.select_editor_track",
        "ui.editor.move_selection_to_track",
        "ui.editor.set_note_kind",
        "ui.editor.toggle_editor_file_menu",
        "ui.editor.dismiss_editor_file_menu",
        "ui.editor.save_editor_as_utz",
        "ui.editor.save_editor_as_ultra_star",
        "ui.editor.toggle_editor_layout_menu",
        "ui.editor.dismiss_editor_layout_menu",
        "ui.editor.dismiss_lyric_context",
        "ui.editor.dismiss_note_context",
        "ui.editor.select_waveform_source",
        "ui.editor.select_artifact_audition",
        "ui.editor.activate_artifact_audition",
        "ui.editor.select_artifact_waveform",
        "ui.editor.select_waveform_style",
        "ui.editor.dismiss_waveform_context",
        "ui.editor.toggle_evidence",
        "ui.editor.review_previous",
        "ui.editor.review_next",
        "ui.editor.mark_review_region",
        "ui.editor.accept_suggestion",
        "ui.editor.ignore_suggestion",
        "ui.editor.set_problems_filter",
        "ui.editor.apply_all_lyrics_edit",
        "ui.editor.extend_lyric_over_note",
        "ui.editor.dismiss_problems_panel",
        "ui.editor.dismiss_shortcuts_panel",
    ];
    assert(commands@ =~= spec_editor_commands());
    commands
}

/// Pointer-observer commands. Primary and secondary clicks are separate
/// commands; drags and resizes are gestures of their own.
pub open spec fn spec_pointer_commands() -> Seq<&'static str> {
    seq![
        "ui.pointer.analysis_node.primary",
        "ui.pointer.analysis_node.secondary",
        "ui.pointer.analysis_edge.primary",
        "ui.pointer.song.primary",
        "ui.pointer.song.secondary",
        "ui.pointer.folder_entry.primary",
        "ui.pointer.folder_entry.double_primary",
        "ui.pointer.folder_entry.secondary",
        "ui.pointer.editor_note.secondary",
        "ui.pointer.editor_lyric.primary",
        "ui.pointer.editor_lyric.secondary",
        "ui.pointer.editor_lane.primary",
        "ui.pointer.editor_waveform.secondary",
        "ui.pointer.editor_timeline.primary",
        "ui.pointer.editor_note_drag",
        "ui.pointer.editor_note_resize",
        "ui.pointer.editor_lyric_drag",
        "ui.pointer.editor_lyric_resize",
        "ui.pointer.transcript_boundary_drag",
        "ui.pointer.editor_viewport_pan",
        "ui.pointer.analysis_viewport_pan",
    ]
}

/// Pointer-observer commands. Primary and secondary clicks are separate
pub fn pointer_commands() -> (commands: Vec<&'static str>)
    ensures
        commands@ == spec_pointer_commands(),
{
    let commands = vec![
        "ui.pointer.analysis_node.primary",
        "ui.pointer.analysis_node.secondary",
        "ui.pointer.analysis_edge.primary",
        "ui.pointer.song.primary",
        "ui.pointer.song.secondary",
        "ui.pointer.folder_entry.primary",
        "ui.pointer.folder_entry.double_primary",
        "ui.pointer.folder_entry.secondary",
        "ui.pointer.editor_note.secondary",
        "ui.pointer.editor_lyric.primary",
        "ui.pointer.editor_lyric.secondary",
        "ui.pointer.editor_lane.primary",
        "ui.pointer.editor_waveform.secondary",
        "ui.pointer.editor_timeline.primary",
        "ui.pointer.editor_note_drag",
        "ui.pointer.editor_note_resize",
        "ui.pointer.editor_lyric_drag",
        "ui.pointer.editor_lyric_resize",
        "ui.pointer.transcript_boundary_drag",
        "ui.pointer.editor_viewport_pan",
        "ui.pointer.analysis_viewport_pan",
    ];
    assert(commands@ =~= spec_pointer_commands());
    commands
}

/// The command families of the studio, one id prefix each.
#[derive(Clone, Copy, Debug, PartialEq, Eq)]
pub enum UiDomain {
    App,
    Library,
    Settings,
    Analysis,
    Editor,
    /// A named editor action; its id is used as given.
    EditorAction,
}

impl UiDomain {
    pub open spec fn spec_prefix(self) -> Seq<char> {
        match self {
            UiDomain::App => "ui.app."@,
            UiDomain::Library => "ui.library."@,
            UiDomain::Settings => "ui.settings."@,
            UiDomain::Analysis => "ui.analysis."@,
            UiDomain::Editor => "ui.editor."@,
            UiDomain::EditorAction => "ui.editor.action."@,
        }
    }

    /// The id prefix of the family.
    pub fn prefix(self) -> (p: &'static str)
        ensures
            p@ == self.spec_prefix(),
    {
        match self {
            UiDomain::App => "ui.app.",
            UiDomain::Library => "ui.library.",
            UiDomain::Settings => "ui.settings.",
            UiDomain::Analysis => "ui.analysis.",
            UiDomain::Editor => "ui.editor.",
            UiDomain::EditorAction => "ui.editor.action.",
        }
    }
}

/// A typed UI command: its family, the variant (its debug rendering, or the
/// action id for editor actions) and the values it carries.
#[derive(Debug, PartialEq, Eq)]
pub struct UiCommand {
    pub domain: UiDomain,
    pub variant: String,
    pub payload: Vec<String>,
}

/// What a button dispatches.
#[derive(Debug, PartialEq, Eq)]
pub struct UiAction(pub UiCommand);

/// A button as contracts see it: its caption, and the family, variant and
/// carried values of what it dispatches.
pub type ActionView = (Seq<char>, UiDomain, Seq<char>, Seq<Seq<char>>);

pub open spec fn action_view(a: (String, UiAction)) -> ActionView {
    (a.0@, a.1.0.domain, a.1.0.variant@, a.1.0.payload@.map_values(|s: String| s@))
}

pub open spec fn button(caption: Seq<char>, domain: UiDomain, variant: Seq<char>, payload: Seq<Seq<char>>) -> ActionView {
    (caption, domain, variant, payload)
}

/// A button dispatching a command of `domain` that carries `value`.
pub fn button_with_value(caption: &str, domain: UiDomain, variant: &str, value: &str) -> (b: (String, UiAction))
    ensures
        action_view(b) == button(caption@, domain, variant@, seq![value@]),
{
    let command = UiCommand::with_value(domain, variant, value);
    assert(command.payload@.map_values(|s: String| s@) =~= seq![value@]);
    (owned(caption), UiAction(command))
}

/// A button dispatching a command of `domain` that carries nothing.
pub fn plain_button(caption: &str, domain: UiDomain, variant: &str) -> (b: (String, UiAction))
    ensures
        action_view(b) == button(caption@, domain, variant@, Seq::empty()),
{
    let command = UiCommand::new(domain, variant);
    assert(command.payload@.map_values(|s: String| s@) =~= Seq::<Seq<char>>::empty());
    (owned(caption), UiAction(command))
}

/// A registered interaction: its id and access class.
#[derive(Debug, PartialEq, Eq)]
pub struct UiInteractionCapability {
    pub command: String,
    pub access: &'static str,
    pub automated_check: bool,
}

/// A structured request built from one interaction.
#[derive(Debug, PartialEq, Eq)]
pub struct UiInteractionRequest {
    pub command: String,
    pub access: &'static str,
}

pub open spec fn is_variant_stop(c: char) -> bool {
    c == '(' || c == '{'
}

/// The variant name: the debug text up to its first `(` or `{`.
pub open spec fn variant_name(debug: Seq<char>) -> Seq<char>
    decreases debug.len(),
{
    if debug.len() == 0 || is_variant_stop(debug[0]) {
        Seq::empty()
    } else {
        seq![debug[0]] + variant_name(debug.drop_first())
    }
}

/// CamelCase to snake_case: an underscore before every upper-case character
/// but the first, and every character lowered.
pub open spec fn snake_chars(name: Seq<char>) -> Seq<char>
    decreases name.len(),
{
    if name.len() == 0 {
        Seq::empty()
    } else {
        let c = name.last();
        let sep = if is_upper_case(c) && name.len() > 1 {
            seq!['_']
        } else {
            Seq::empty()
        };
        snake_chars(name.drop_last()) + sep + lower_case_of(c)
    }
}

pub open spec fn spec_snake_variant(debug: Seq<char>) -> Seq<char> {
    snake_chars(variant_name(debug))
}

proof fn lemma_variant_name_prefix(s: Seq<char>, e: int)
    requires
        0 <= e <= s.len(),
        forall|k: int| 0 <= k < e ==> !is_variant_stop(#[trigger] s[k]),
        e == s.len() || is_variant_stop(s[e]),
    ensures
        variant_name(s) == s.take(e),
    decreases e,
{
    if e == 0 {
        assert(s.take(0) =~= Seq::<char>::empty());
    } else {
        let t = s.drop_first();
        assert forall|k: int| 0 <= k < e - 1 implies !is_variant_stop(#[trigger] t[k]) by {
            assert(t[k] == s[k + 1]);
        }
        lemma_variant_name_prefix(t, e - 1);
        assert(s.take(e) =~= seq![s[0]] + t.take(e - 1));
    }
}

/// `s` without its underscores.
pub open spec fn without_underscores(s: Seq<char>) -> Seq<char>
    decreases s.len(),
{
    if s.len() == 0 {
        Seq::empty()
    } else if s.last() == '_' {
        without_underscores(s.drop_last())
    } else {
        without_underscores(s.drop_last()).push(s.last())
    }
}

/// How many underscores `s` holds.
pub open spec fn underscore_count(s: Seq<char>) -> nat
    decreases s.len(),
{
    if s.len() == 0 {
        0
    } else {
        underscore_count(s.drop_last()) + if s.last() == '_' {
            1nat
        } else {
            0nat
        }
    }
}

/// How many ASCII upper-case letters `s` holds.
pub open spec fn ascii_upper_count(s: Seq<char>) -> nat
    decreases s.len(),
{
    if s.len() == 0 {
        0
    } else {
        ascii_upper_count(s.drop_last()) + if 'A' <= s.last() && s.last() <= 'Z' {
            1nat
        } else {
            0nat
        }
    }
}

pub open spec fn is_ascii_alphanumeric(c: char) -> bool {
    ('a' <= c && c <= 'z') || ('A' <= c && c <= 'Z') || ('0' <= c && c <= '9')
}

proof fn lemma_underscores_concat(x: Seq<char>, y: Seq<char>)
    ensures
        without_underscores(x + y) == without_underscores(x) + without_underscores(y),
        underscore_count(x + y) == underscore_count(x) + underscore_count(y),
    decreases y.len(),
{
    if y.len() == 0 {
        assert(x + y =~= x);
        assert(without_underscores(x) + without_underscores(y) =~= without_underscores(x));
    } else {
        lemma_underscores_concat(x, y.drop_last());
        assert((x + y).drop_last() =~= x + y.drop_last());
        assert((x + y).last() == y.last());
        assert(without_underscores(x + y) =~= without_underscores(x) + without_underscores(y));
    }
}

/// For a variant name of ASCII letters and digits, the snake_case form is
/// the name in lower case with one underscore before each upper-case
/// letter but the first character: it holds no upper-case letter, does not
/// start with an underscore, reads as the lowered name without its
/// underscores, and has as many underscores as the name has upper-case
/// letters after its first character.
pub proof fn law_ascii_names_become_snake_case(name: Seq<char>)
    requires
        forall|i: int| 0 <= i < name.len() ==> is_ascii_alphanumeric(#[trigger] name[i]),
    ensures
        without_underscores(snake_chars(name)) == ascii_lowercase(name),
        underscore_count(snake_chars(name)) == if name.len() == 0 {
            0
        } else {
            ascii_upper_count(name.drop_first())
        },
        forall|i: int|
            0 <= i < snake_chars(name).len() ==> !('A' <= #[trigger] snake_chars(name)[i] && snake_chars(
                name,
            )[i] <= 'Z'),
        snake_chars(name).len() > 0 ==> snake_chars(name)[0] != '_',
    decreases name.len(),
{
    if name.len() > 0 {
        let t = name.drop_last();
        let c = name.last();
        assert forall|i: int| 0 <= i < t.len() implies is_ascii_alphanumeric(#[trigger] t[i]) by {
            assert(t[i] == name[i]);
        }
        law_ascii_names_become_snake_case(t);
        assert(is_ascii_alphanumeric(c));
        assert((c as u32) < 128);
        let lower = ascii_lower(c);
        assert(lower_case_of(c) == seq![lower]);
        assert(lower != '_');
        assert(!('A' <= lower && lower <= 'Z'));
        let sep: Seq<char> = if is_upper_case(c) && name.len() > 1 {
            seq!['_']
        } else {
            Seq::empty()
        };
        let st = snake_chars(t);
        assert(snake_chars(name) == st + sep + seq![lower]);
        lemma_underscores_concat(st, sep);
        lemma_underscores_concat(st + sep, seq![lower]);
        assert(without_underscores(Seq::<char>::empty()) =~= Seq::<char>::empty());
        assert(without_underscores(sep) =~= Seq::<char>::empty()) by {
            if sep.len() > 0 {
                assert(sep.drop_last() =~= Seq::<char>::empty());
                assert(sep.last() == '_');
            }
        }
        assert(without_underscores(seq![lower]) =~= seq![lower]) by {
            assert(seq![lower].drop_last() =~= Seq::<char>::empty());
            assert(seq![lower].last() == lower);
            assert(Seq::<char>::empty().push(lower) =~= seq![lower]);
        }
        assert(underscore_count(seq![lower]) == 0) by {
            assert(seq![lower].drop_last() =~= Seq::<char>::empty());
        }
        assert(underscore_count(Seq::<char>::empty()) == 0);
        assert(underscore_count(sep) == if sep.len() > 0 { 1nat } else { 0nat }) by {
            if sep.len() > 0 {
                assert(sep.drop_last() =~= Seq::<char>::empty());
                assert(sep.last() == '_');
            }
        }
        assert(ascii_lowercase(name) =~= ascii_lowercase(t).push(lower));
        if t.len() > 0 {
            assert(name.drop_first().drop_last() =~= t.drop_first());
            assert(name.drop_first().last() == c);
        } else {
            assert(name.drop_first() =~= Seq::<char>::empty());
        }
        let whole = snake_chars(name);
        assert forall|i: int| 0 <= i < whole.len() implies !('A' <= #[trigger] whole[i] && whole[i]
            <= 'Z') by {
            if i < st.len() {
                assert(whole[i] == st[i]);
            } else if i < st.len() + sep.len() {
                assert(whole[i] == '_');
            } else {
                assert(whole[i] == lower);
            }
        }
        if whole.len() > 0 {
            if st.len() > 0 {
                assert(whole[0] == st[0]);
            } else {
                assert(t.len() == 0) by {
                    if t.len() > 0 {
                        assert(snake_chars(t).len() > 0) by {
                            let tt = t.drop_last();
                            assert(lower_case_of(t.last()).len() == 1) by {
                                assert(is_ascii_alphanumeric(t[t.len() - 1]));
                            }
                        }
                    }
                }
                assert(sep.len() == 0);
                assert(whole[0] == lower);
            }
        }
    }
}

/// The snake_case form of a variant's debug text, e.g. `OpenSongAnalysis("a")`
/// becomes `open_song_analysis`.
pub fn snake_variant(debug: &str) -> (snake: String)
    ensures
        snake@ == spec_snake_variant(debug@),
{
    let chars = chars_of(debug);
    let mut end: usize = 0;
    while end < chars.len() && chars[end] != '(' && chars[end] != '{'
        invariant
            end <= chars.len(),
            forall|k: int| 0 <= k < end ==> !is_variant_stop(#[trigger] chars@[k]),
        decreases chars.len() - end,
    {
        end = end + 1;
    }
    proof {
        lemma_variant_name_prefix(chars@, end as int);
    }
    let ghost name = chars@.take(end as int);
    let mut result = String::new();
    let mut i: usize = 0;
    while i < end
        invariant
            end <= chars.len(),
            i <= end,
            name == chars@.take(end as int),
            result@ == snake_chars(name.take(i as int)),
        decreases end - i,
    {
        let c = chars[i];
        proof {
            assert(name.take(i + 1).drop_last() =~= name.take(i as int));
            assert(name.take(i + 1).last() == c);
        }
        if char_is_uppercase(c) && i != 0 {
            push_char(&mut result, '_');
        }
        let lower = char_to_lowercase(c);
        let mut j: usize = 0;
        let ghost before = result@;
        while j < lower.len()
            invariant
                j <= lower.len(),
                result@ == before + lower@.take(j as int),
            decreases lower.len() - j,
        {
            push_char(&mut result, lower[j]);
            j = j + 1;
            assert(result@ =~= before + lower@.take(j as int));
        }
        proof {
            assert(lower@.take(lower.len() as int) =~= lower@);
        }
        i = i + 1;
        proof {
            assert(result@ =~= snake_chars(name.take(i as int)));
        }
    }
    proof {
        assert(name.take(end as int) =~= name);
    }
    result
}

/// The access class of a command id: `mutation`, `destructive`, `external`,
/// `temporary` or `read`, decided by these rules in order.
pub open spec fn spec_classified_access(c: Seq<char>) -> &'static str {
    if has_suffix(c, ".queue_exact_preview"@) {
        "mutation"
    } else if is_infix(c, "confirm_delete"@) || is_infix(c, "confirm_clear"@) || is_infix(
        c,
        "confirm_remove"@,
    ) || is_infix(c, "remove_audio_model"@) {
        "destructive"
    } else if is_infix(c, "choose_"@) || is_infix(c, "reveal_"@) || is_infix(c, "open_source"@)
        || is_infix(c, "open_log"@) || is_infix(c, "search_lrclib"@) || is_infix(
        c,
        "request_setup"@,
    ) || is_infix(c, "confirm_setup"@) || is_infix(c, "install_audio_model"@) {
        "external"
    } else if has_suffix(c, ".start_analysis"@) || has_suffix(c, ".select_library_audio_source"@)
        || is_infix(c, "preview"@) || is_infix(c, "audition"@) || is_infix(c, "play_"@) {
        "temporary"
    } else if is_infix(c, "open_"@) || is_infix(c, "close_"@) || is_infix(c, "dismiss_"@)
        || is_infix(c, "select_"@) || is_infix(c, "toggle_"@) || is_infix(c, "focus_"@)
        || is_infix(c, "fit_"@) || is_infix(c, "adjust_analysis_graph_zoom"@) || has_suffix(
        c,
        ".back"@,
    ) || has_suffix(c, ".home"@) || is_infix(c, "documentation"@) {
        "read"
    } else {
        "mutation"
    }
}

/// The access classes a command can have.
pub open spec fn is_access_class(a: &'static str) -> bool {
    a == "read" || a == "mutation" || a == "destructive" || a == "external" || a == "temporary"
}

/// Commands are classed by the words in their id: confirming a deletion, a
/// clearing or a removal, and removing an audio model, destroy data;
/// choosing files, revealing them, opening sources and logs, searching
/// LRCLIB, and setting up or installing models reach outside the studio;
/// starting an analysis, previews, auditions and playback are temporary;
/// opening, closing, dismissing, selecting, toggling, focusing, fitting,
/// zooming the analysis graph, going back or home and documentation only
/// change what is read; everything else mutates. Queueing the exact preview
/// mutates whatever else its id says, and each earlier group wins over the
/// later ones.
pub proof fn law_access_classes_follow_the_command_words(c: Seq<char>)
    ensures
        has_suffix(c, ".queue_exact_preview"@) ==> spec_classified_access(c) == "mutation",
        !has_suffix(c, ".queue_exact_preview"@) && (is_infix(c, "confirm_delete"@) || is_infix(
            c,
            "confirm_clear"@,
        ) || is_infix(c, "confirm_remove"@) || is_infix(c, "remove_audio_model"@))
            ==> spec_classified_access(c) == "destructive",
        spec_classified_access(c) == "destructive" ==> !has_suffix(c, ".queue_exact_preview"@) && (
        is_infix(c, "confirm_delete"@) || is_infix(c, "confirm_clear"@) || is_infix(
            c,
            "confirm_remove"@,
        ) || is_infix(c, "remove_audio_model"@)),
        spec_classified_access(c) == "external" ==> is_infix(c, "choose_"@) || is_infix(
            c,
            "reveal_"@,
        ) || is_infix(c, "open_source"@) || is_infix(c, "open_log"@) || is_infix(
            c,
            "search_lrclib"@,
        ) || is_infix(c, "request_setup"@) || is_infix(c, "confirm_setup"@) || is_infix(
            c,
            "install_audio_model"@,
        ),
        spec_classified_access(c) != "destructive" && (is_infix(c, "choose_"@) || is_infix(
            c,
            "reveal_"@,
        ) || is_infix(c, "open_source"@) || is_infix(c, "open_log"@) || is_infix(
            c,
            "search_lrclib"@,
        ) || is_infix(c, "request_setup"@) || is_infix(c, "confirm_setup"@) || is_infix(
            c,
            "install_audio_model"@,
        )) && !has_suffix(c, ".queue_exact_preview"@) ==> spec_classified_access(c) == "external",
        spec_classified_access(c) == "temporary" ==> has_suffix(c, ".start_analysis"@) || has_suffix(
            c,
            ".select_library_audio_source"@,
        ) || is_infix(c, "preview"@) || is_infix(c, "audition"@) || is_infix(c, "play_"@),
        spec_classified_access(c) != "destructive" && spec_classified_access(c) != "external"
            && !has_suffix(c, ".queue_exact_preview"@) && (has_suffix(c, ".start_analysis"@)
            || has_suffix(c, ".select_library_audio_source"@) || is_infix(c, "preview"@)
            || is_infix(c, "audition"@) || is_infix(c, "play_"@)) ==> spec_classified_access(c)
            == "temporary",
        spec_classified_access(c) == "read" ==> is_infix(c, "open_"@) || is_infix(c, "close_"@)
            || is_infix(c, "dismiss_"@) || is_infix(c, "select_"@) || is_infix(c, "toggle_"@)
            || is_infix(c, "focus_"@) || is_infix(c, "fit_"@) || is_infix(
            c,
            "adjust_analysis_graph_zoom"@,
        ) || has_suffix(c, ".back"@) || has_suffix(c, ".home"@) || is_infix(c, "documentation"@),
        spec_classified_access(c) != "destructive" && spec_classified_access(c) != "external"
            && spec_classified_access(c) != "temporary" && !has_suffix(c, ".queue_exact_preview"@)
            && (is_infix(c, "open_"@) || is_infix(c, "close_"@) || is_infix(c, "dismiss_"@)
            || is_infix(c, "select_"@) || is_infix(c, "toggle_"@) || is_infix(c, "focus_"@)
            || is_infix(c, "fit_"@) || is_infix(c, "adjust_analysis_graph_zoom"@) || has_suffix(
            c,
            ".back"@,
        ) || has_suffix(c, ".home"@) || is_infix(c, "documentation"@)) ==> spec_classified_access(
            c,
        ) == "read",
{
}

/// Classifies a command id by its access.
pub fn classified_access(command: &str) -> (access: &'static str)
    ensures
        access == spec_classified_access(command@),
{
    let c = chars_of(command);
    if ends_with_str(&c, ".queue_exact_preview") {
        "mutation"
    } else if contains_str(&c, "confirm_delete") || contains_str(&c, "confirm_clear")
        || contains_str(&c, "confirm_remove") || contains_str(&c, "remove_audio_model") {
        "destructive"
    } else if contains_str(&c, "choose_") || contains_str(&c, "reveal_") || contains_str(
        &c,
        "open_source",
    ) || contains_str(&c, "open_log") || contains_str(&c, "search_lrclib") || contains_str(
        &c,
        "request_setup",
    ) || contains_str(&c, "confirm_setup") || contains_str(&c, "install_audio_model") {
        "external"
    } else if ends_with_str(&c, ".start_analysis") || ends_with_str(
        &c,
        ".select_library_audio_source",
    ) || contains_str(&c, "preview") || contains_str(&c, "audition") || contains_str(&c, "play_") {
        "temporary"
    } else if contains_str(&c, "open_") || contains_str(&c, "close_") || contains_str(
        &c,
        "dismiss_",
    ) || contains_str(&c, "select_") || contains_str(&c, "toggle_") || contains_str(&c, "focus_")
        || contains_str(&c, "fit_") || contains_str(&c, "adjust_analysis_graph_zoom")
        || ends_with_str(&c, ".back") || ends_with_str(&c, ".home") || contains_str(
        &c,
        "documentation",
    ) {
        "read"
    } else {
        "mutation"
    }
}

/// Every command id is in exactly one of the five access classes.
pub proof fn law_every_command_has_an_access_class(command: Seq<char>)
    ensures
        is_access_class(spec_classified_access(command)),
{
}

impl UiCommand {
    /// A command of `domain` with no carried values.
    pub fn new(domain: UiDomain, variant: &str) -> (c: UiCommand)
        ensures
            c.domain == domain,
            c.variant@ == variant@,
            c.payload@.len() == 0,
    {
        UiCommand { domain, variant: owned(variant), payload: Vec::new() }
    }

    /// A command of `domain` carrying one value.
    pub fn with_value(domain: UiDomain, variant: &str, value: &str) -> (c: UiCommand)
        ensures
            c.domain == domain,
            c.variant@ == variant@,
            c.payload@.len() == 1,
            c.payload@[0]@ == value@,
    {
        let mut payload: Vec<String> = Vec::new();
        payload.push(owned(value));
        UiCommand { domain, variant: owned(variant), payload }
    }

    pub open spec fn spec_api_command(self) -> Seq<char> {
        self.domain.spec_prefix() + match self.domain {
            UiDomain::EditorAction => self.variant@,
            _ => spec_snake_variant(self.variant@),
        }
    }

    /// The stable command id, the same whether the command is invoked by
    /// mouse, keyboard, context menu or an automated contract test.
    pub fn api_command(&self) -> (id: String)
        ensures
            id@ == self.spec_api_command(),
    {
        let mut id = owned(self.domain.prefix());
        match self.domain {
            UiDomain::EditorAction => push_str(&mut id, self.variant.as_str()),
            _ => {
                let snake = snake_variant(self.variant.as_str());
                push_str(&mut id, snake.as_str());
            },
        }
        id
    }

    /// The structured request: the command id and its access class.
    pub fn api_request(&self) -> (request: UiInteractionRequest)
        ensures
            request.command@ == self.spec_api_command(),
            request.access == spec_classified_access(self.spec_api_command()),
    {
        let command = self.api_command();
        let access = classified_access(command.as_str());
        UiInteractionRequest { access, command }
    }
}

impl UiAction {
    /// The structured request of the command this action dispatches.
    pub fn api_request(&self) -> (request: UiInteractionRequest)
        ensures
            request.command@ == self.0.spec_api_command(),
            request.access == spec_classified_access(self.0.spec_api_command()),
    {
        self.0.api_request()
    }
}

/// The character sequences of a list of strings.
pub open spec fn string_views(list: Seq<String>) -> Seq<Seq<char>> {
    list.map_values(|s: String| s@)
}

pub open spec fn views(list: Seq<&'static str>) -> Seq<Seq<char>> {
    list.map_values(|s: &'static str| s@)
}

/// The editor action ids, as registered command ids.
pub open spec fn editor_action_ids(actions: Seq<String>) -> Seq<Seq<char>> {
    actions.map_values(|a: String| "ui.editor.action."@ + a@)
}

/// Every registered command id, in registry order: the typed command
/// families, then the editor actions, then the pointer gestures.
pub open spec fn spec_registered(actions: Seq<String>) -> Seq<Seq<char>> {
    views(spec_app_commands()) + views(spec_library_commands()) + views(spec_settings_commands())
        + views(spec_analysis_commands()) + views(spec_editor_commands()) + editor_action_ids(
        actions,
    ) + views(spec_pointer_commands())
}

fn push_views(out: &mut Vec<String>, list: &Vec<&'static str>)
    ensures
        string_views(final(out)@) == string_views(old(out)@) + views(
            list@,
        ),
{
    let mut i: usize = 0;
    while i < list.len()
        invariant
            i <= list.len(),
            string_views(out@) == string_views(old(out)@) + views(
                list@.take(i as int),
            ),
        decreases list.len() - i,
    {
        let ghost before = out@;
        let item = owned(list[i]);
        let ghost item_view = item@;
        out.push(item);
        i = i + 1;
        proof {
            assert(string_views(out@) =~= string_views(before).push(item_view));
            assert(views(list@.take(i as int)) =~= views(list@.take(i - 1)).push(list@[i - 1]@));
            assert(string_views(out@) =~= string_views(old(out)@)
                + views(list@.take(i as int)));
        }
    }
    assert(list@.take(list.len() as int) =~= list@);
}

fn push_editor_actions(out: &mut Vec<String>, actions: &Vec<String>)
    ensures
        string_views(final(out)@) == string_views(old(out)@)
            + editor_action_ids(actions@),
{
    let mut i: usize = 0;
    while i < actions.len()
        invariant
            i <= actions.len(),
            string_views(out@) == string_views(old(out)@)
                + editor_action_ids(actions@.take(i as int)),
        decreases actions.len() - i,
    {
        let ghost before = out@;
        let mut id = owned("ui.editor.action.");
        push_str(&mut id, actions[i].as_str());
        let ghost id_view = id@;
        out.push(id);
        i = i + 1;
        proof {
            assert(string_views(out@) =~= string_views(before).push(id_view));
            assert(editor_action_ids(actions@.take(i as int)) =~= editor_action_ids(
                actions@.take(i - 1),
            ).push("ui.editor.action."@ + actions@[i - 1]@));
            assert(string_views(out@) =~= string_views(old(out)@)
                + editor_action_ids(actions@.take(i as int)));
        }
    }
    assert(actions@.take(actions.len() as int) =~= actions@);
}

/// Every registered command id; `editor_actions` are the ids of the named
/// editor actions.
pub fn registered_ui_commands(editor_actions: &Vec<String>) -> (commands: Vec<String>)
    ensures
        string_views(commands@) == spec_registered(editor_actions@),
        string_views(editor_actions@).no_duplicates() ==> string_views(commands@).no_duplicates(),
{
    let mut commands: Vec<String> = Vec::new();
    assert(string_views(commands@) =~= Seq::<Seq<char>>::empty());
    push_views(&mut commands, &app_commands());
    push_views(&mut commands, &library_commands());
    push_views(&mut commands, &settings_commands());
    push_views(&mut commands, &analysis_commands());
    push_views(&mut commands, &editor_commands());
    push_editor_actions(&mut commands, editor_actions);
    push_views(&mut commands, &pointer_commands());
    assert(string_views(commands@) =~= spec_registered(editor_actions@));
    proof {
        if string_views(editor_actions@).no_duplicates() {
            crate::registry_ids::law_registered_ids_are_distinct(editor_actions@);
        }
    }
    commands
}

/// Every registered interaction with its access class; each one is covered
/// by an automated check, and no id occurs twice when the editor actions
/// have distinct names.
pub fn ui_interaction_capabilities(editor_actions: &Vec<String>) -> (capabilities: Vec<
    UiInteractionCapability,
>)
    ensures
        capabilities@.len() == spec_registered(editor_actions@).len(),
        forall|i: int|
            0 <= i < capabilities@.len() ==> {
                &&& (#[trigger] capabilities@[i]).command@ == spec_registered(editor_actions@)[i]
                &&& capabilities@[i].access == spec_classified_access(capabilities@[i].command@)
                &&& capabilities@[i].automated_check
            },
        string_views(editor_actions@).no_duplicates() ==> forall|i: int, j: int|
            0 <= i < capabilities@.len() && 0 <= j < capabilities@.len() && i != j
                ==> (#[trigger] capabilities@[i]).command@ != (#[trigger] capabilities@[j]).command@,
{
    let commands = registered_ui_commands(editor_actions);
    let ghost ids = string_views(commands@);
    let mut capabilities: Vec<UiInteractionCapability> = Vec::new();
    let mut i: usize = 0;
    while i < commands.len()
        invariant
            i <= commands.len(),
            ids == string_views(commands@),
            ids == spec_registered(editor_actions@),
            capabilities@.len() == i,
            forall|k: int|
                0 <= k < i ==> {
                    &&& (#[trigger] capabilities@[k]).command@ == ids[k]
                    &&& capabilities@[k].access == spec_classified_access(capabilities@[k].command@)
                    &&& capabilities@[k].automated_check
                },
        decreases commands.len() - i,
    {
        let command = owned(commands[i].as_str());
        let access = classified_access(command.as_str());
        capabilities.push(UiInteractionCapability { access, command, automated_check: true });
        i = i + 1;
    }
    proof {
        if string_views(editor_actions@).no_duplicates() {
            crate::registry_ids::law_registered_ids_are_distinct(editor_actions@);
            assert forall|i: int, j: int|
                0 <= i < capabilities@.len() && 0 <= j < capabilities@.len() && i != j
                    implies (#[trigger] capabilities@[i]).command@ != (#[trigger] capabilities@[j]).command@ by {
                assert(ids[i] != ids[j]);
            }
        }
    }
    capabilities
}

fn registry_contains(commands: &Vec<String>, command: &str) -> (found: bool)
    ensures
        found == string_views(commands@).contains(command@),
{
    let ghost ids = string_views(commands@);
    let wanted = chars_of(command);
    let mut i: usize = 0;
    while i < commands.len()
        invariant
            i <= commands.len(),
            ids == string_views(commands@),
            wanted@ == command@,
            forall|k: int| 0 <= k < i ==> ids[k] != command@,
        decreases commands.len() - i,
    {
        let candidate = chars_of(commands[i].as_str());
        if chars_equal(&candidate, &wanted) {
            assert(ids[i as int] == command@);
            return true;
        }
        i = i + 1;
    }
    proof {
        if ids.contains(command@) {
            let k = choose|k: int| 0 <= k < ids.len() && ids[k] == command@;
            assert(ids[k] != command@);
        }
    }
    false
}

/// Whether `command` is a registered interaction id.
pub fn ui_interaction_is_registered(command: &str, editor_actions: &Vec<String>) -> (registered:
    bool)
    ensures
        registered == spec_registered(editor_actions@).contains(command@),
{
    registry_contains(&registered_ui_commands(editor_actions), command)
}

/// What the interaction-API audit finds wrong with a newly shown button.
#[derive(Debug)]
pub enum ApiAuditFinding {
    /// The button neither dispatches a typed action nor declares a pointer
    /// API.
    NoLocalApi,
    /// The typed action's command is not in the registry.
    UnregisteredAction { command: String },
    /// A declared pointer command is not in the registry.
    UnregisteredPointer { command: String },
}

/// Where the first unregistered command of `commands` stands, if any.
pub open spec fn first_unregistered(commands: Seq<&'static str>, registry: Seq<Seq<char>>) -> Option<
    int,
>
    decreases commands.len(),
{
    if commands.len() == 0 {
        None
    } else if !registry.contains(commands[0]@) {
        Some(0)
    } else {
        match first_unregistered(commands.drop_first(), registry) {
            Some(i) => Some(i + 1),
            None => None,
        }
    }
}

proof fn lemma_first_unregistered(commands: Seq<&'static str>, registry: Seq<Seq<char>>, i: int)
    requires
        0 <= i <= commands.len(),
        forall|k: int| 0 <= k < i ==> registry.contains(#[trigger] commands[k]@),
        i == commands.len() || !registry.contains(commands[i]@),
    ensures
        first_unregistered(commands, registry) == if i == commands.len() {
            None::<int>
        } else {
            Some(i)
        },
    decreases i,
{
    if i > 0 {
        let t = commands.drop_first();
        assert forall|k: int| 0 <= k < i - 1 implies registry.contains(#[trigger] t[k]@) by {
            assert(t[k] == commands[k + 1]);
        }
        lemma_first_unregistered(t, registry, i - 1);
    }
}

/// The first check a newly shown button fails: every button must dispatch
/// a typed action or declare the pointer commands that handle it, and each
/// of those commands must be registered. `None` when it passes.
pub fn audit_button(
    action: &Option<UiAction>,
    pointer: &Option<Vec<&'static str>>,
    editor_actions: &Vec<String>,
) -> (finding: Option<ApiAuditFinding>)
    ensures
        ({
            let registry = spec_registered(editor_actions@);
            let action_fails = action matches Some(a) && !registry.contains(
                a.0.spec_api_command(),
            );
            let pointer_fails = pointer matches Some(p) && first_unregistered(p@, registry) is Some;
            &&& (action is None && pointer is None) <==> (finding matches Some(
                ApiAuditFinding::NoLocalApi,
            ))
            &&& action_fails <==> (finding matches Some(
                ApiAuditFinding::UnregisteredAction { .. },
            ))
            &&& (finding matches Some(ApiAuditFinding::UnregisteredAction { command })
                ==> command@ == (action->0).0.spec_api_command())
            &&& (!action_fails && pointer_fails) <==> (finding matches Some(
                ApiAuditFinding::UnregisteredPointer { .. },
            ))
            &&& (finding matches Some(ApiAuditFinding::UnregisteredPointer { command })
                ==> command@ == pointer->0@[first_unregistered(pointer->0@, registry)->0]@)
        }),
{
    if action.is_none() && pointer.is_none() {
        return Some(ApiAuditFinding::NoLocalApi);
    }
    let registry = registered_ui_commands(editor_actions);
    let ghost ids = spec_registered(editor_actions@);
    if let Some(action) = action {
        let request = action.api_request();
        if !registry_contains(&registry, request.command.as_str()) {
            return Some(ApiAuditFinding::UnregisteredAction { command: request.command });
        }
    }
    if let Some(commands) = pointer {
        let mut i: usize = 0;
        while i < commands.len()
            invariant
                i <= commands@.len(),
                string_views(registry@) == ids,
                ids == spec_registered(editor_actions@),
                *pointer == Some(*commands),
                !(action matches Some(a) && !ids.contains(a.0.spec_api_command())),
                forall|k: int| 0 <= k < i ==> ids.contains(#[trigger] commands@[k]@),
            decreases commands.len() - i,
        {
            if !registry_contains(&registry, commands[i]) {
                proof {
                    lemma_first_unregistered(commands@, ids, i as int);
                }
                return Some(ApiAuditFinding::UnregisteredPointer { command: owned(commands[i]) });
            }
            i = i + 1;
        }
        proof {
            lemma_first_unregistered(commands@, ids, i as int);
        }
    }
    None
}

} // verus!

