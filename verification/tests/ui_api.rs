use uta_studio_desktop::ui_api::{
    audit_button, ApiAuditFinding,
    classified_access, registered_ui_commands, snake_variant, ui_interaction_capabilities,
    ui_interaction_is_registered, UiAction, UiCommand, UiDomain,
};

#[test]
fn a_click_builds_a_structured_registered_request() {
    let action = UiAction(UiCommand::new(UiDomain::App, "Back"));
    let request = action.api_request();
    assert_eq!(request.command, "ui.app.back");
    assert_eq!(request.access, "read");
    assert!(ui_interaction_is_registered(&request.command, &Vec::new()));
}

#[test]
fn opening_run_analysis_is_temporary_and_exact_queueing_is_a_mutation() {
    assert_eq!(classified_access("ui.analysis.start_analysis"), "temporary");
    assert_eq!(
        classified_access("ui.analysis.queue_exact_preview"),
        "mutation"
    );
}

#[test]
fn debug_command_is_a_registered_mutation() {
    let request = UiAction(UiCommand::new(UiDomain::App, "StartDebugLogging")).api_request();
    assert_eq!(request.command, "ui.app.start_debug_logging");
    assert_eq!(request.access, "mutation");
    assert!(ui_interaction_is_registered(&request.command, &Vec::new()));
}

#[test]
fn snake_variant_drops_payloads_and_splits_words() {
    assert_eq!(snake_variant("OpenSongAnalysis(\"song-a\")"), "open_song_analysis");
    assert_eq!(snake_variant("SettingsTab(Models)"), "settings_tab");
    assert_eq!(snake_variant("Back"), "back");
    assert_eq!(snake_variant("Seek { delta: 1 }"), "seek ");
    assert_eq!(snake_variant(""), "");
}

#[test]
fn editor_actions_use_their_ids_verbatim() {
    let undo = UiCommand::new(UiDomain::EditorAction, "undo");
    assert_eq!(undo.api_command(), "ui.editor.action.undo");
    let actions = vec!["undo".to_string(), "redo".to_string()];
    assert!(ui_interaction_is_registered("ui.editor.action.undo", &actions));
    assert!(!ui_interaction_is_registered("ui.editor.action.undo", &Vec::new()));
}

#[test]
fn ui_api_ids_are_unique_classified_and_automated() {
    let actions = vec!["undo".to_string()];
    let capabilities = ui_interaction_capabilities(&actions);
    let commands = capabilities
        .iter()
        .map(|capability| capability.command.as_str())
        .collect::<std::collections::BTreeSet<_>>();
    assert_eq!(commands.len(), capabilities.len());
    assert_eq!(capabilities.len(), 19 + 45 + 25 + 55 + 59 + 1 + 21);
    assert!(capabilities.iter().all(|capability| {
        capability.automated_check
            && matches!(
                capability.access,
                "read" | "mutation" | "destructive" | "external" | "temporary"
            )
    }));
}

#[test]
fn registered_commands_follow_the_registry_order() {
    let commands = registered_ui_commands(&vec!["undo".to_string()]);
    assert_eq!(commands[0], "ui.app.back");
    assert_eq!(commands[19], "ui.library.set_library_view");
    assert_eq!(commands[19 + 45 + 25 + 55 + 59], "ui.editor.action.undo");
    assert_eq!(commands.last().unwrap(), "ui.pointer.analysis_viewport_pan");
}

#[test]
fn pointer_commands_are_never_destructive() {
    let commands = registered_ui_commands(&Vec::new());
    for command in commands.iter().filter(|c| c.starts_with("ui.pointer.")) {
        assert_ne!(classified_access(command), "destructive", "{command}");
    }
    assert_ne!(classified_access("ui.pointer.song.primary"), "destructive");
}

#[test]
fn access_classes_follow_the_rules_in_order() {
    assert_eq!(classified_access("ui.analysis.confirm_delete_song_cache"), "destructive");
    assert_eq!(classified_access("ui.settings.remove_audio_model"), "destructive");
    assert_eq!(classified_access("ui.library.choose_folder"), "external");
    assert_eq!(classified_access("ui.settings.confirm_setup"), "external");
    assert_eq!(classified_access("ui.editor.select_artifact_audition"), "temporary");
    assert_eq!(classified_access("ui.library.play_library_song"), "temporary");
    assert_eq!(classified_access("ui.app.home"), "read");
    assert_eq!(classified_access("ui.app.documentation_back"), "read");
    assert_eq!(classified_access("ui.editor.save_song_settings"), "mutation");
}

#[test]
fn audit_passes_a_registered_action_button() {
    let action = Some(UiAction(UiCommand::new(UiDomain::App, "Back")));
    assert!(audit_button(&action, &None, &Vec::new()).is_none());
    let pointer = Some(vec!["ui.pointer.song.primary", "ui.pointer.song.secondary"]);
    assert!(audit_button(&None, &pointer, &Vec::new()).is_none());
    assert!(audit_button(&action, &pointer, &Vec::new()).is_none());
}

#[test]
fn audit_reports_a_button_without_an_api() {
    assert!(matches!(
        audit_button(&None, &None, &Vec::new()),
        Some(ApiAuditFinding::NoLocalApi)
    ));
}

#[test]
fn audit_reports_the_first_unregistered_command() {
    let action = Some(UiAction(UiCommand::new(UiDomain::App, "StartDebugRecording")));
    match audit_button(&action, &Some(vec!["ui.pointer.nowhere"]), &Vec::new()) {
        Some(ApiAuditFinding::UnregisteredAction { command }) => {
            assert_eq!(command, "ui.app.start_debug_recording")
        }
        other => panic!("unexpected {other:?}"),
    }
    let action = Some(UiAction(UiCommand::new(UiDomain::App, "Back")));
    match audit_button(&action, &Some(vec!["ui.app.home", "ui.pointer.nowhere", "ui.x"]), &Vec::new()) {
        Some(ApiAuditFinding::UnregisteredPointer { command }) => {
            assert_eq!(command, "ui.pointer.nowhere")
        }
        other => panic!("unexpected {other:?}"),
    }
}

#[test]
fn parity_closure_features_have_reachable_typed_ui_actions() {
    let editor_actions = vec!["undo".to_string(), "redo".to_string()];
    for command in [
        "ui.settings.toggle_analysis_quantization",
        "ui.analysis.set_workflow_policy",
        "ui.analysis.merge_selected_candidate_phrase",
        "ui.editor.select_waveform_source",
        "ui.editor.select_editor_track",
        "ui.editor.toggle_evidence",
        "ui.editor.review_previous",
        "ui.editor.review_next",
        "ui.editor.accept_suggestion",
        "ui.editor.action.undo",
    ] {
        assert!(
            ui_interaction_is_registered(command, &editor_actions),
            "missing reachable parity action {command}"
        );
    }
}

#[test]
fn ascii_variant_names_become_snake_case() {
    for (debug, name) in [
        ("SettingsTab(General)", "SettingsTab"),
        ("Back", "Back"),
        ("OpenSongAnalysis(\"a\")", "OpenSongAnalysis"),
        ("ToggleUi2Mode", "ToggleUi2Mode"),
    ] {
        let s = snake_variant(debug);
        assert!(!s.chars().any(|c| c.is_uppercase()));
        assert!(!s.starts_with('_'));
        assert_eq!(s.replace('_', ""), name.to_ascii_lowercase());
        assert_eq!(
            s.matches('_').count(),
            name.chars().skip(1).filter(|c| c.is_ascii_uppercase()).count()
        );
    }
    assert_eq!(snake_variant("SettingsTab(General)"), "settings_tab");
}
