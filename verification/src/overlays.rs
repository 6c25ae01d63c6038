//! The overlay region: which menus, panels and dialogs are drawn above the
//! page, and in which order (later ones are drawn on top).
use vstd::prelude::*;

verus! {

/// One layer of the overlay region.
#[derive(Clone, Copy, Debug, PartialEq, Eq)]
pub enum OverlayLayer {
    AnalysisNodeContext,
    EditorFileMenu,
    EditorLayoutMenu,
    NoteContext,
    LyricContext,
    WaveformContext,
    ActivityCenter,
    ArtifactDeleteConfirmation,
    ArtifactInvalidateConfirmation,
    ArtifactActiveConfirmation,
    IntermediateCaptureConfirmation,
    ChartReplaceConfirmation,
    ArtifactDiff,
    ArtifactLineage,
    ArtifactImpact,
    About,
    SongSettings,
    LeaveConfirmation,
}

/// What is open or pending, as the overlay region sees it.
#[derive(Clone, Copy, Debug, PartialEq, Eq)]
pub struct OverlayState {
    pub analysis_node_context: bool,
    /// The editor route is shown with an editor loaded.
    pub editor_open: bool,
    pub file_menu_open: bool,
    pub layout_menu_open: bool,
    pub note_context: bool,
    pub lyric_context: bool,
    pub waveform_context: bool,
    pub activity_open: bool,
    pub artifact_delete_pending: bool,
    pub artifact_invalidate_pending: bool,
    pub artifact_active_pending: bool,
    pub intermediate_capture_pending: bool,
    pub chart_replace_pending: bool,
    pub artifact_diff: bool,
    pub artifact_lineage: bool,
    pub artifact_impact: bool,
    pub about_open: bool,
    pub song_settings_open: bool,
    pub leave_pending: bool,
}

/// The layers whose entry is shown, in the order of the entries.
pub open spec fn shown_layers(entries: Seq<(bool, OverlayLayer)>) -> Seq<OverlayLayer>
    decreases entries.len(),
{
    if entries.len() == 0 {
        Seq::empty()
    } else {
        let last = entries.last();
        let below = shown_layers(entries.drop_last());
        if last.0 {
            below.push(last.1)
        } else {
            below
        }
    }
}

/// The `i`-th layer that can be drawn, bottom first, with whether it is
/// open now. The editor's own menus count only on the editor route.
pub open spec fn overlay_entry(s: OverlayState, i: int) -> (bool, OverlayLayer) {
    if i == 0 {
        (s.analysis_node_context, OverlayLayer::AnalysisNodeContext)
    } else if i == 1 {
        (s.editor_open && s.file_menu_open, OverlayLayer::EditorFileMenu)
    } else if i == 2 {
        (s.editor_open && s.layout_menu_open, OverlayLayer::EditorLayoutMenu)
    } else if i == 3 {
        (s.editor_open && s.note_context, OverlayLayer::NoteContext)
    } else if i == 4 {
        (s.editor_open && s.lyric_context, OverlayLayer::LyricContext)
    } else if i == 5 {
        (s.editor_open && s.waveform_context, OverlayLayer::WaveformContext)
    } else if i == 6 {
        (s.activity_open, OverlayLayer::ActivityCenter)
    } else if i == 7 {
        (s.artifact_delete_pending, OverlayLayer::ArtifactDeleteConfirmation)
    } else if i == 8 {
        (s.artifact_invalidate_pending, OverlayLayer::ArtifactInvalidateConfirmation)
    } else if i == 9 {
        (s.artifact_active_pending, OverlayLayer::ArtifactActiveConfirmation)
    } else if i == 10 {
        (s.intermediate_capture_pending, OverlayLayer::IntermediateCaptureConfirmation)
    } else if i == 11 {
        (s.chart_replace_pending, OverlayLayer::ChartReplaceConfirmation)
    } else if i == 12 {
        (s.artifact_diff, OverlayLayer::ArtifactDiff)
    } else if i == 13 {
        (s.artifact_lineage, OverlayLayer::ArtifactLineage)
    } else if i == 14 {
        (s.artifact_impact, OverlayLayer::ArtifactImpact)
    } else if i == 15 {
        (s.about_open, OverlayLayer::About)
    } else if i == 16 {
        (s.song_settings_open, OverlayLayer::SongSettings)
    } else {
        (s.leave_pending, OverlayLayer::LeaveConfirmation)
    }
}

/// Each layer that can be drawn, bottom first, with whether it is open now.
pub open spec fn overlay_entries(s: OverlayState) -> Seq<(bool, OverlayLayer)> {
    Seq::new(18, |i: int| overlay_entry(s, i))
}

/// Every layer that is open, bottom first.
pub open spec fn spec_overlay_layers(s: OverlayState) -> Seq<OverlayLayer> {
    shown_layers(overlay_entries(s))
}

fn entries_of(s: &OverlayState) -> (entries: Vec<(bool, OverlayLayer)>)
    ensures
        entries@ == overlay_entries(*s),
{
    let entries = vec![
        (s.analysis_node_context, OverlayLayer::AnalysisNodeContext),
        (s.editor_open && s.file_menu_open, OverlayLayer::EditorFileMenu),
        (s.editor_open && s.layout_menu_open, OverlayLayer::EditorLayoutMenu),
        (s.editor_open && s.note_context, OverlayLayer::NoteContext),
        (s.editor_open && s.lyric_context, OverlayLayer::LyricContext),
        (s.editor_open && s.waveform_context, OverlayLayer::WaveformContext),
        (s.activity_open, OverlayLayer::ActivityCenter),
        (s.artifact_delete_pending, OverlayLayer::ArtifactDeleteConfirmation),
        (s.artifact_invalidate_pending, OverlayLayer::ArtifactInvalidateConfirmation),
        (s.artifact_active_pending, OverlayLayer::ArtifactActiveConfirmation),
        (s.intermediate_capture_pending, OverlayLayer::IntermediateCaptureConfirmation),
        (s.chart_replace_pending, OverlayLayer::ChartReplaceConfirmation),
        (s.artifact_diff, OverlayLayer::ArtifactDiff),
        (s.artifact_lineage, OverlayLayer::ArtifactLineage),
        (s.artifact_impact, OverlayLayer::ArtifactImpact),
        (s.about_open, OverlayLayer::About),
        (s.song_settings_open, OverlayLayer::SongSettings),
        (s.leave_pending, OverlayLayer::LeaveConfirmation),
    ];
    assert(entries@ =~= overlay_entries(*s));
    entries
}

/// The overlay layers to draw, bottom first.
pub fn overlay_layers(s: &OverlayState) -> (layers: Vec<OverlayLayer>)
    ensures
        layers@ == spec_overlay_layers(*s),
{
    let entries = entries_of(s);
    let mut layers: Vec<OverlayLayer> = Vec::new();
    let mut i: usize = 0;
    while i < entries.len()
        invariant
            i <= entries@.len(),
            layers@ == shown_layers(entries@.take(i as int)),
        decreases entries.len() - i,
    {
        let (shown, layer) = entries[i];
        assert(entries@.take(i + 1).drop_last() =~= entries@.take(i as int));
        if shown {
            layers.push(layer);
        }
        i = i + 1;
    }
    assert(entries@.take(entries@.len() as int) =~= entries@);
    layers
}

proof fn lemma_shown_layer_has_an_open_entry(entries: Seq<(bool, OverlayLayer)>, x: OverlayLayer)
    requires
        shown_layers(entries).contains(x),
    ensures
        exists|i: int| 0 <= i < entries.len() && entries[i] == (true, x),
    decreases entries.len(),
{
    let below = shown_layers(entries.drop_last());
    let last = entries.last();
    if last.0 && last.1 == x {
        assert(entries[entries.len() - 1] == (true, x));
    } else {
        if last.0 {
            let k = choose|k: int| 0 <= k < shown_layers(entries).len() && shown_layers(entries)[k] == x;
            assert(k < below.len());
            assert(below[k] == x);
        }
        assert(below.contains(x));
        lemma_shown_layer_has_an_open_entry(entries.drop_last(), x);
        let i = choose|i: int| 0 <= i < entries.drop_last().len() && entries.drop_last()[i] == (true, x);
        assert(entries[i] == (true, x));
    }
}

/// A pending leave confirmation is drawn above every other overlay, and it
/// is drawn only while a leave is pending.
pub proof fn law_leave_confirmation_is_topmost(s: OverlayState)
    ensures
        s.leave_pending ==> spec_overlay_layers(s).last() == OverlayLayer::LeaveConfirmation,
        !s.leave_pending ==> !spec_overlay_layers(s).contains(OverlayLayer::LeaveConfirmation),
{
    let entries = overlay_entries(s);
    assert(entries.last() == (s.leave_pending, OverlayLayer::LeaveConfirmation));
    if !s.leave_pending && spec_overlay_layers(s).contains(OverlayLayer::LeaveConfirmation) {
        lemma_shown_layer_has_an_open_entry(entries, OverlayLayer::LeaveConfirmation);
        let i = choose|i: int|
            0 <= i < entries.len() && entries[i] == (true, OverlayLayer::LeaveConfirmation);
        assert(entries[i] == (true, OverlayLayer::LeaveConfirmation));
    }
}

/// The state that opens `layer`: its own flag, and for the editor's menus
/// also the editor route.
pub open spec fn opens(s: OverlayState, layer: OverlayLayer) -> bool {
    match layer {
        OverlayLayer::AnalysisNodeContext => s.analysis_node_context,
        OverlayLayer::EditorFileMenu => s.editor_open && s.file_menu_open,
        OverlayLayer::EditorLayoutMenu => s.editor_open && s.layout_menu_open,
        OverlayLayer::NoteContext => s.editor_open && s.note_context,
        OverlayLayer::LyricContext => s.editor_open && s.lyric_context,
        OverlayLayer::WaveformContext => s.editor_open && s.waveform_context,
        OverlayLayer::ActivityCenter => s.activity_open,
        OverlayLayer::ArtifactDeleteConfirmation => s.artifact_delete_pending,
        OverlayLayer::ArtifactInvalidateConfirmation => s.artifact_invalidate_pending,
        OverlayLayer::ArtifactActiveConfirmation => s.artifact_active_pending,
        OverlayLayer::IntermediateCaptureConfirmation => s.intermediate_capture_pending,
        OverlayLayer::ChartReplaceConfirmation => s.chart_replace_pending,
        OverlayLayer::ArtifactDiff => s.artifact_diff,
        OverlayLayer::ArtifactLineage => s.artifact_lineage,
        OverlayLayer::ArtifactImpact => s.artifact_impact,
        OverlayLayer::About => s.about_open,
        OverlayLayer::SongSettings => s.song_settings_open,
        OverlayLayer::LeaveConfirmation => s.leave_pending,
    }
}

/// Where a layer is drawn: a layer with a higher rank is drawn above one
/// with a lower rank.
pub open spec fn layer_rank(layer: OverlayLayer) -> int {
    match layer {
        OverlayLayer::AnalysisNodeContext => 0,
        OverlayLayer::EditorFileMenu => 1,
        OverlayLayer::EditorLayoutMenu => 2,
        OverlayLayer::NoteContext => 3,
        OverlayLayer::LyricContext => 4,
        OverlayLayer::WaveformContext => 5,
        OverlayLayer::ActivityCenter => 6,
        OverlayLayer::ArtifactDeleteConfirmation => 7,
        OverlayLayer::ArtifactInvalidateConfirmation => 8,
        OverlayLayer::ArtifactActiveConfirmation => 9,
        OverlayLayer::IntermediateCaptureConfirmation => 10,
        OverlayLayer::ChartReplaceConfirmation => 11,
        OverlayLayer::ArtifactDiff => 12,
        OverlayLayer::ArtifactLineage => 13,
        OverlayLayer::ArtifactImpact => 14,
        OverlayLayer::About => 15,
        OverlayLayer::SongSettings => 16,
        OverlayLayer::LeaveConfirmation => 17,
    }
}

proof fn lemma_open_entry_is_shown(entries: Seq<(bool, OverlayLayer)>, i: int)
    requires
        0 <= i < entries.len(),
        entries[i].0,
    ensures
        shown_layers(entries).contains(entries[i].1),
    decreases entries.len(),
{
    let below = shown_layers(entries.drop_last());
    if i == entries.len() - 1 {
        assert(shown_layers(entries) == below.push(entries[i].1));
        assert(shown_layers(entries)[below.len() as int] == entries[i].1);
    } else {
        lemma_open_entry_is_shown(entries.drop_last(), i);
        assert(entries.drop_last()[i] == entries[i]);
        let k = choose|k: int| 0 <= k < below.len() && below[k] == entries[i].1;
        if entries.last().0 {
            assert(shown_layers(entries)[k] == below[k]);
        }
    }
}

proof fn lemma_shown_layers_ranked(entries: Seq<(bool, OverlayLayer)>)
    requires
        forall|i: int, j: int|
            0 <= i < j < entries.len() ==> layer_rank(#[trigger] entries[i].1) < layer_rank(
                #[trigger] entries[j].1,
            ),
    ensures
        forall|i: int, j: int|
            0 <= i < j < shown_layers(entries).len() ==> layer_rank(
                #[trigger] shown_layers(entries)[i],
            ) < layer_rank(#[trigger] shown_layers(entries)[j]),
        forall|k: int|
            0 <= k < shown_layers(entries).len() ==> exists|i: int|
                0 <= i < entries.len() && entries[i] == (true, #[trigger] shown_layers(entries)[k]),
    decreases entries.len(),
{
    if entries.len() > 0 {
        let rest = entries.drop_last();
        assert forall|i: int, j: int| 0 <= i < j < rest.len() implies layer_rank(
            #[trigger] rest[i].1,
        ) < layer_rank(#[trigger] rest[j].1) by {
            assert(rest[i] == entries[i] && rest[j] == entries[j]);
        }
        lemma_shown_layers_ranked(rest);
        let below = shown_layers(rest);
        let all = shown_layers(entries);
        assert forall|k: int| 0 <= k < all.len() implies exists|i: int|
            0 <= i < entries.len() && entries[i] == (true, #[trigger] all[k]) by {
            if k < below.len() {
                assert(all[k] == below[k]);
                let i = choose|i: int| 0 <= i < rest.len() && rest[i] == (true, below[k]);
                assert(entries[i] == rest[i]);
            } else {
                assert(entries[entries.len() - 1] == (true, all[k]));
            }
        }
        if entries.last().0 {
            assert forall|i: int, j: int| 0 <= i < j < all.len() implies layer_rank(
                #[trigger] all[i],
            ) < layer_rank(#[trigger] all[j]) by {
                if j < below.len() {
                    assert(all[i] == below[i] && all[j] == below[j]);
                } else {
                    assert(all[i] == below[i]);
                    let e = choose|e: int| 0 <= e < rest.len() && rest[e] == (true, below[i]);
                    assert(entries[e] == rest[e]);
                    assert(all[j] == entries[entries.len() - 1].1);
                    assert(layer_rank(entries[e].1) < layer_rank(entries[entries.len() - 1].1));
                }
            }
        }
    }
}

proof fn lemma_entries_ranked(s: OverlayState)
    ensures
        overlay_entries(s).len() == 18,
        forall|i: int|
            0 <= i < 18 ==> layer_rank(#[trigger] overlay_entries(s)[i].1) == i
                && overlay_entries(s)[i].0 == opens(s, overlay_entries(s)[i].1),
{
    let entries = overlay_entries(s);
    assert forall|i: int| 0 <= i < 18 implies layer_rank(#[trigger] entries[i].1) == i
        && entries[i].0 == opens(s, entries[i].1) by {
        assert(entries[i] == overlay_entry(s, i));
        if i == 0 {
        } else if i == 1 {
        } else if i == 2 {
        } else if i == 3 {
        } else if i == 4 {
        } else if i == 5 {
        } else if i == 6 {
        } else if i == 7 {
        } else if i == 8 {
        } else if i == 9 {
        } else if i == 10 {
        } else if i == 11 {
        } else if i == 12 {
        } else if i == 13 {
        } else if i == 14 {
        } else if i == 15 {
        } else if i == 16 {
        } else {
        }
    }
}

/// Each layer is drawn exactly when what opens it is set (its own flag, and
/// the editor route for the editor's menus), each at most once, and the
/// layers are drawn in their fixed order, bottom first.
pub proof fn law_each_layer_follows_its_own_flag(s: OverlayState)
    ensures
        forall|layer: OverlayLayer|
            #[trigger] spec_overlay_layers(s).contains(layer) <==> opens(s, layer),
        forall|i: int, j: int|
            0 <= i < j < spec_overlay_layers(s).len() ==> layer_rank(
                #[trigger] spec_overlay_layers(s)[i],
            ) < layer_rank(#[trigger] spec_overlay_layers(s)[j]),
{
    let entries = overlay_entries(s);
    lemma_entries_ranked(s);
    lemma_shown_layers_ranked(entries);
    assert forall|layer: OverlayLayer| #[trigger] spec_overlay_layers(s).contains(layer) <==> opens(
        s,
        layer,
    ) by {
        let r = layer_rank(layer);
        assert(0 <= r < entries.len());
        assert(entries[r].1 == layer);
        if opens(s, layer) {
            lemma_open_entry_is_shown(entries, r);
        }
        if spec_overlay_layers(s).contains(layer) {
            lemma_shown_layer_has_an_open_entry(entries, layer);
            let i = choose|i: int| 0 <= i < entries.len() && entries[i] == (true, layer);
            assert(layer_rank(entries[i].1) == i);
        }
    }
}

/// Away from the editor route, the editor's menus and context menus are
/// never drawn, whatever state they were left in.
pub proof fn law_editor_menus_need_the_editor(s: OverlayState)
    requires
        !s.editor_open,
    ensures
        spec_overlay_layers(s) == spec_overlay_layers(
            OverlayState {
                file_menu_open: false,
                layout_menu_open: false,
                note_context: false,
                lyric_context: false,
                waveform_context: false,
                ..s
            },
        ),
{
    let t = OverlayState {
        file_menu_open: false,
        layout_menu_open: false,
        note_context: false,
        lyric_context: false,
        waveform_context: false,
        ..s
    };
    assert(overlay_entries(s) =~= overlay_entries(t));
}

} // verus!
