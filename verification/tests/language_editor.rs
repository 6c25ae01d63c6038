use uta_studio_desktop::language_editor::spawn_language_editor;
use uta_studio_desktop::ui_api::{UiAction, UiCommand, UiDomain};

#[test]
fn closed_picker_shows_the_chosen_language() {
    let picker = spawn_language_editor("ja", false, false, None);
    assert_eq!(picker.label, "Japanese");
    assert_eq!(picker.code, "JA");
    assert_eq!(picker.arrow, "v");
    assert!(picker.options.is_empty());
    assert_eq!(picker.action_label, "Action: realign current lyrics");
    assert_eq!(picker.notice, None);
}

#[test]
fn open_picker_lists_every_language_and_marks_the_chosen_one() {
    let picker = spawn_language_editor("ko", true, true, None);
    assert_eq!(picker.arrow, "^");
    assert_eq!(picker.options.len(), 21);
    assert_eq!(picker.options[0].label, "Automatic detection");
    assert_eq!(picker.options[0].code, "AUTO");
    let selected: Vec<&str> = picker.options.iter().filter(|o| o.selected).map(|o| o.label).collect();
    assert_eq!(selected, vec!["Korean"]);
    assert_eq!(
        picker.options[4].action,
        UiAction(UiCommand::with_value(UiDomain::Editor, "SelectAnalysisLanguage", "ko"))
    );
    assert_eq!(picker.action_label, "Action: transcribe vocals again");
}

#[test]
fn an_unknown_code_reads_as_automatic_detection() {
    let picker = spawn_language_editor("xx", true, false, None);
    assert_eq!(picker.label, "Automatic detection");
    assert_eq!(picker.code, "XX");
    assert!(picker.options.iter().all(|o| !o.selected));
}

#[test]
fn a_notice_is_shown_exactly_when_given() {
    let picker = spawn_language_editor("ja", false, false, Some("Language saved."));
    assert_eq!(picker.notice.as_deref(), Some("Language saved."));
    assert_eq!(spawn_language_editor("ja", false, false, None).notice, None);
}
