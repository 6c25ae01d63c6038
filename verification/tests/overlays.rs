use uta_studio_desktop::overlays::{overlay_layers, OverlayLayer, OverlayState};

fn nothing_open() -> OverlayState {
    OverlayState {
        analysis_node_context: false,
        editor_open: false,
        file_menu_open: false,
        layout_menu_open: false,
        note_context: false,
        lyric_context: false,
        waveform_context: false,
        activity_open: false,
        artifact_delete_pending: false,
        artifact_invalidate_pending: false,
        artifact_active_pending: false,
        intermediate_capture_pending: false,
        chart_replace_pending: false,
        artifact_diff: false,
        artifact_lineage: false,
        artifact_impact: false,
        about_open: false,
        song_settings_open: false,
        leave_pending: false,
    }
}

#[test]
fn nothing_open_draws_no_overlay() {
    assert!(overlay_layers(&nothing_open()).is_empty());
}

#[test]
fn overlays_are_drawn_bottom_first_with_the_leave_dialog_on_top() {
    let mut s = nothing_open();
    s.leave_pending = true;
    s.about_open = true;
    s.activity_open = true;
    s.analysis_node_context = true;
    s.chart_replace_pending = true;
    assert_eq!(
        overlay_layers(&s),
        vec![
            OverlayLayer::AnalysisNodeContext,
            OverlayLayer::ActivityCenter,
            OverlayLayer::ChartReplaceConfirmation,
            OverlayLayer::About,
            OverlayLayer::LeaveConfirmation,
        ]
    );
}

#[test]
fn editor_menus_need_the_editor_route() {
    let mut s = nothing_open();
    s.file_menu_open = true;
    s.note_context = true;
    assert!(overlay_layers(&s).is_empty());
    s.editor_open = true;
    assert_eq!(
        overlay_layers(&s),
        vec![OverlayLayer::EditorFileMenu, OverlayLayer::NoteContext]
    );
}

#[test]
fn song_settings_sit_above_the_artifact_panels() {
    let mut s = nothing_open();
    s.song_settings_open = true;
    s.artifact_impact = true;
    s.artifact_delete_pending = true;
    assert_eq!(
        overlay_layers(&s),
        vec![
            OverlayLayer::ArtifactDeleteConfirmation,
            OverlayLayer::ArtifactImpact,
            OverlayLayer::SongSettings,
        ]
    );
}
