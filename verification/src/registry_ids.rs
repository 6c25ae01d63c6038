//! The registered interaction ids are pairwise distinct. Each command
//! family's ids are told apart by a small key (their length and two of
//! their characters), the families by their fifth character, and the editor
//! actions by their common prefix.
use vstd::prelude::*;

use crate::ui_api::{
    editor_action_ids, spec_analysis_commands, spec_app_commands, spec_editor_commands,
    spec_library_commands, spec_pointer_commands, spec_registered, spec_settings_commands,
    string_views, views,
};

verus! {

/// The length of `s` and its characters at `p` and `q` before the end,
/// folded into one number.
pub open spec fn id_key(s: Seq<char>, p: int, q: int) -> int {
    s.len() * 1000000 + (s[p] as int) * 1000 + (s[s.len() - q] as int)
}

/// Whether `s` starts with the prefix of the editor-action ids.
pub open spec fn has_action_prefix(s: Seq<char>) -> bool {
    s.len() >= 17 && s.take(17) == "ui.editor.action."@
}

/// Which part of the registry an id can belong to: the editor actions, or
/// else the family named by the id's fifth character.
pub open spec fn id_class(s: Seq<char>) -> int {
    if has_action_prefix(s) {
        0
    } else {
        s[4] as int
    }
}

proof fn lemma_not_action_id(s: Seq<char>, d: int)
    requires
        0 <= d < 17,
        d < s.len(),
        s[d] != "ui.editor.action."@[d],
    ensures
        !has_action_prefix(s),
{
    if has_action_prefix(s) {
        assert(s.take(17)[d] == s[d]);
    }
}

spec fn app_id_keys(i: int) -> int {
    if i == 0 {
        11117107
    } else if i == 1 {
        11117101
    } else if i == 2 {
        27117104
    } else if i == 3 {
        14117115
    } else if i == 4 {
        15117115
    } else if i == 5 {
        20117110
    } else if i == 6 {
        25117110
    } else if i == 7 {
        25117107
    } else if i == 8 {
        28117100
    } else if i == 9 {
        22117121
    } else if i == 10 {
        21117121
    } else if i == 11 {
        17117116
    } else if i == 12 {
        18117116
    } else if i == 13 {
        24117110
    } else if i == 14 {
        15117103
    } else if i == 15 {
        26117103
    } else if i == 16 {
        22117115
    } else if i == 17 {
        19117101
    } else {
        20117101
    }
}

proof fn lemma_app_ids_distinct()
    ensures
        views(spec_app_commands()).no_duplicates(),
        forall|i: int|
            0 <= i < views(spec_app_commands()).len() ==> id_class(
                #[trigger] views(spec_app_commands())[i],
            ) == 'p' as int,
{
    let v = views(spec_app_commands());
    reveal_strlit("ui.editor.action.");
    assert(v.len() == 19);
    assert forall|i: int| 0 <= i < 19 implies id_key(#[trigger] v[i], 0, 1) == app_id_keys(i)
        && v[i].len() > 4 && v[i][4] == 'p' && !has_action_prefix(v[i]) by {
        if i == 0 {
            reveal_strlit("ui.app.back");
            lemma_not_action_id(v[i], 4);
        } else if i == 1 {
            reveal_strlit("ui.app.home");
            lemma_not_action_id(v[i], 4);
        } else if i == 2 {
            reveal_strlit("ui.app.toggle_global_search");
            lemma_not_action_id(v[i], 4);
        } else if i == 3 {
            reveal_strlit("ui.app.folders");
            lemma_not_action_id(v[i], 4);
        } else if i == 4 {
            reveal_strlit("ui.app.settings");
            lemma_not_action_id(v[i], 4);
        } else if i == 5 {
            reveal_strlit("ui.app.documentation");
            lemma_not_action_id(v[i], 4);
        } else if i == 6 {
            reveal_strlit("ui.app.open_documentation");
            lemma_not_action_id(v[i], 4);
        } else if i == 7 {
            reveal_strlit("ui.app.documentation_back");
            lemma_not_action_id(v[i], 4);
        } else if i == 8 {
            reveal_strlit("ui.app.documentation_forward");
            lemma_not_action_id(v[i], 4);
        } else if i == 9 {
            reveal_strlit("ui.app.toggle_activity");
            lemma_not_action_id(v[i], 4);
        } else if i == 10 {
            reveal_strlit("ui.app.close_activity");
            lemma_not_action_id(v[i], 4);
        } else if i == 11 {
            reveal_strlit("ui.app.open_about");
            lemma_not_action_id(v[i], 4);
        } else if i == 12 {
            reveal_strlit("ui.app.close_about");
            lemma_not_action_id(v[i], 4);
        } else if i == 13 {
            reveal_strlit("ui.app.toggle_fullscreen");
            lemma_not_action_id(v[i], 4);
        } else if i == 14 {
            reveal_strlit("ui.app.open_log");
            lemma_not_action_id(v[i], 4);
        } else if i == 15 {
            reveal_strlit("ui.app.start_debug_logging");
            lemma_not_action_id(v[i], 4);
        } else if i == 16 {
            reveal_strlit("ui.app.run_diagnostics");
            lemma_not_action_id(v[i], 4);
        } else if i == 17 {
            reveal_strlit("ui.app.cancel_leave");
            lemma_not_action_id(v[i], 4);
        } else {
            reveal_strlit("ui.app.confirm_leave");
            lemma_not_action_id(v[i], 4);
        }
    }
    assert forall|i: int, j: int| 0 <= i < 19 && 0 <= j < 19 && i != j implies v[i] != v[j] by {
        assert(app_id_keys(i) != app_id_keys(j));
        if v[i] == v[j] {
            assert(id_key(v[i], 0, 1) == id_key(v[j], 0, 1));
        }
    }
    assert forall|i: int| 0 <= i < v.len() implies id_class(#[trigger] v[i]) == 'p' as int by {
        assert(!has_action_prefix(v[i]));
    }
}

spec fn library_id_keys(i: int) -> int {
    if i == 0 {
        27101119
    } else if i == 1 {
        28101116
    } else if i == 2 {
        26111115
    } else if i == 3 {
        31112104
    } else if i == 4 {
        31108104
    } else if i == 5 {
        32111116
    } else if i == 6 {
        33111117
    } else if i == 7 {
        25120122
    } else if i == 8 {
        32120114
    } else if i == 9 {
        30112116
    } else if i == 10 {
        31101101
    } else if i == 11 {
        22110108
    } else if i == 12 {
        25101121
    } else if i == 13 {
        24104114
    } else if i == 14 {
        31104114
    } else if i == 15 {
        30108114
    } else if i == 16 {
        29101116
    } else if i == 17 {
        20111112
    } else if i == 18 {
        28112121
    } else if i == 19 {
        30101121
    } else if i == 20 {
        33105116
    } else if i == 21 {
        32101114
    } else if i == 22 {
        31097114
    } else if i == 23 {
        32111114
    } else if i == 24 {
        20112103
    } else if i == 25 {
        23110103
    } else if i == 26 {
        29104101
    } else if i == 27 {
        22112114
    } else if i == 28 {
        21120122
    } else if i == 29 {
        28120114
    } else if i == 30 {
        22112101
    } else if i == 31 {
        24101101
    } else if i == 32 {
        31105116
    } else if i == 33 {
        28108103
    } else if i == 34 {
        34111107
    } else if i == 35 {
        32101101
    } else if i == 36 {
        32114103
    } else if i == 37 {
        28101103
    } else if i == 38 {
        33111101
    } else if i == 39 {
        31121116
    } else if i == 40 {
        32100101
    } else if i == 41 {
        30111101
    } else if i == 42 {
        43111117
    } else if i == 43 {
        38101101
    } else {
        31111101
    }
}

proof fn lemma_library_ids_distinct()
    ensures
        views(spec_library_commands()).no_duplicates(),
        forall|i: int|
            0 <= i < views(spec_library_commands()).len() ==> id_class(
                #[trigger] views(spec_library_commands())[i],
            ) == 'i' as int,
{
    let v = views(spec_library_commands());
    reveal_strlit("ui.editor.action.");
    assert(v.len() == 45);
    assert forall|i: int| 0 <= i < 45 implies id_key(#[trigger] v[i], 12, 1) == library_id_keys(i)
        && v[i].len() > 4 && v[i][4] == 'i' && !has_action_prefix(v[i]) by {
        if i == 0 {
            reveal_strlit("ui.library.set_library_view");
            lemma_not_action_id(v[i], 4);
        } else if i == 1 {
            reveal_strlit("ui.library.set_library_facet");
            lemma_not_action_id(v[i], 4);
        } else if i == 2 {
            reveal_strlit("ui.library.load_more_songs");
            lemma_not_action_id(v[i], 4);
        } else if i == 3 {
            reveal_strlit("ui.library.apply_library_search");
            lemma_not_action_id(v[i], 4);
        } else if i == 4 {
            reveal_strlit("ui.library.clear_library_search");
            lemma_not_action_id(v[i], 4);
        } else if i == 5 {
            reveal_strlit("ui.library.toggle_library_layout");
            lemma_not_action_id(v[i], 4);
        } else if i == 6 {
            reveal_strlit("ui.library.toggle_export_all_menu");
            lemma_not_action_id(v[i], 4);
        } else if i == 7 {
            reveal_strlit("ui.library.export_all_utz");
            lemma_not_action_id(v[i], 4);
        } else if i == 8 {
            reveal_strlit("ui.library.export_all_ultra_star");
            lemma_not_action_id(v[i], 4);
        } else if i == 9 {
            reveal_strlit("ui.library.open_library_select");
            lemma_not_action_id(v[i], 4);
        } else if i == 10 {
            reveal_strlit("ui.library.select_library_value");
            lemma_not_action_id(v[i], 4);
        } else if i == 11 {
            reveal_strlit("ui.library.analyze_all");
            lemma_not_action_id(v[i], 4);
        } else if i == 12 {
            reveal_strlit("ui.library.rescan_library");
            lemma_not_action_id(v[i], 4);
        } else if i == 13 {
            reveal_strlit("ui.library.choose_folder");
            lemma_not_action_id(v[i], 4);
        } else if i == 14 {
            reveal_strlit("ui.library.choose_export_folder");
            lemma_not_action_id(v[i], 4);
        } else if i == 15 {
            reveal_strlit("ui.library.clear_export_folder");
            lemma_not_action_id(v[i], 4);
        } else if i == 16 {
            reveal_strlit("ui.library.select_folder_root");
            lemma_not_action_id(v[i], 4);
        } else if i == 17 {
            reveal_strlit("ui.library.folder_up");
            lemma_not_action_id(v[i], 4);
        } else if i == 18 {
            reveal_strlit("ui.library.open_folder_entry");
            lemma_not_action_id(v[i], 4);
        } else if i == 19 {
            reveal_strlit("ui.library.reveal_folder_entry");
            lemma_not_action_id(v[i], 4);
        } else if i == 20 {
            reveal_strlit("ui.library.dismiss_folder_context");
            lemma_not_action_id(v[i], 4);
        } else if i == 21 {
            reveal_strlit("ui.library.request_remove_folder");
            lemma_not_action_id(v[i], 4);
        } else if i == 22 {
            reveal_strlit("ui.library.cancel_remove_folder");
            lemma_not_action_id(v[i], 4);
        } else if i == 23 {
            reveal_strlit("ui.library.confirm_remove_folder");
            lemma_not_action_id(v[i], 4);
        } else if i == 24 {
            reveal_strlit("ui.library.open_song");
            lemma_not_action_id(v[i], 4);
        } else if i == 25 {
            reveal_strlit("ui.library.analyze_song");
            lemma_not_action_id(v[i], 4);
        } else if i == 26 {
            reveal_strlit("ui.library.choose_editor_file");
            lemma_not_action_id(v[i], 4);
        } else if i == 27 {
            reveal_strlit("ui.library.open_editor");
            lemma_not_action_id(v[i], 4);
        } else if i == 28 {
            reveal_strlit("ui.library.export_utz");
            lemma_not_action_id(v[i], 4);
        } else if i == 29 {
            reveal_strlit("ui.library.export_ultra_star");
            lemma_not_action_id(v[i], 4);
        } else if i == 30 {
            reveal_strlit("ui.library.open_source");
            lemma_not_action_id(v[i], 4);
        } else if i == 31 {
            reveal_strlit("ui.library.reveal_source");
            lemma_not_action_id(v[i], 4);
        } else if i == 32 {
            reveal_strlit("ui.library.dismiss_song_context");
            lemma_not_action_id(v[i], 4);
        } else if i == 33 {
            reveal_strlit("ui.library.play_library_song");
            lemma_not_action_id(v[i], 4);
        } else if i == 34 {
            reveal_strlit("ui.library.toggle_library_playback");
            lemma_not_action_id(v[i], 4);
        } else if i == 35 {
            reveal_strlit("ui.library.seek_library_relative");
            lemma_not_action_id(v[i], 4);
        } else if i == 36 {
            reveal_strlit("ui.library.previous_library_song");
            lemma_not_action_id(v[i], 4);
        } else if i == 37 {
            reveal_strlit("ui.library.next_library_song");
            lemma_not_action_id(v[i], 4);
        } else if i == 38 {
            reveal_strlit("ui.library.toggle_library_shuffle");
            lemma_not_action_id(v[i], 4);
        } else if i == 39 {
            reveal_strlit("ui.library.cycle_library_repeat");
            lemma_not_action_id(v[i], 4);
        } else if i == 40 {
            reveal_strlit("ui.library.adjust_library_volume");
            lemma_not_action_id(v[i], 4);
        } else if i == 41 {
            reveal_strlit("ui.library.toggle_library_mute");
            lemma_not_action_id(v[i], 4);
        } else if i == 42 {
            reveal_strlit("ui.library.toggle_library_audio_source_menu");
            lemma_not_action_id(v[i], 4);
        } else if i == 43 {
            reveal_strlit("ui.library.select_library_audio_source");
            lemma_not_action_id(v[i], 4);
        } else {
            reveal_strlit("ui.library.toggle_library_queue");
            lemma_not_action_id(v[i], 4);
        }
    }
    assert forall|i: int, j: int| 0 <= i < 45 && 0 <= j < 45 && i != j implies v[i] != v[j] by {
        assert(library_id_keys(i) != library_id_keys(j));
        if v[i] == v[j] {
            assert(id_key(v[i], 12, 1) == id_key(v[j], 12, 1));
        }
    }
    assert forall|i: int| 0 <= i < v.len() implies id_class(#[trigger] v[i]) == 'i' as int by {
        assert(!has_action_prefix(v[i]));
    }
}

spec fn settings_id_keys(i: int) -> int {
    if i == 0 {
        24115098
    } else if i == 1 {
        34114115
    } else if i == 2 {
        32111115
    } else if i == 3 {
        33099115
    } else if i == 4 {
        32111116
    } else if i == 5 {
        33115101
    } else if i == 6 {
        29115100
    } else if i == 7 {
        28115101
    } else if i == 8 {
        32115121
    } else if i == 9 {
        25114112
    } else if i == 10 {
        31105108
    } else if i == 11 {
        30114108
    } else if i == 12 {
        24099112
    } else if i == 13 {
        25099112
    } else if i == 14 {
        24116101
    } else if i == 15 {
        32097101
    } else if i == 16 {
        44116104
    } else if i == 17 {
        40116110
    } else if i == 18 {
        31116101
    } else if i == 19 {
        37114115
    } else if i == 20 {
        31114101
    } else if i == 21 {
        30099101
    } else if i == 22 {
        31099101
    } else if i == 23 {
        39099114
    } else {
        38099114
    }
}

proof fn lemma_settings_ids_distinct()
    ensures
        views(spec_settings_commands()).no_duplicates(),
        forall|i: int|
            0 <= i < views(spec_settings_commands()).len() ==> id_class(
                #[trigger] views(spec_settings_commands())[i],
            ) == 'e' as int,
{
    let v = views(spec_settings_commands());
    reveal_strlit("ui.editor.action.");
    assert(v.len() == 25);
    assert forall|i: int| 0 <= i < 25 implies id_key(#[trigger] v[i], 12, 1) == settings_id_keys(i)
        && v[i].len() > 4 && v[i][4] == 'e' && !has_action_prefix(v[i]) by {
        if i == 0 {
            reveal_strlit("ui.settings.settings_tab");
            lemma_not_action_id(v[i], 4);
        } else if i == 1 {
            reveal_strlit("ui.settings.refresh_runtime_status");
            lemma_not_action_id(v[i], 4);
        } else if i == 2 {
            reveal_strlit("ui.settings.open_model_downloads");
            lemma_not_action_id(v[i], 4);
        } else if i == 3 {
            reveal_strlit("ui.settings.close_model_downloads");
            lemma_not_action_id(v[i], 4);
        } else if i == 4 {
            reveal_strlit("ui.settings.open_settings_select");
            lemma_not_action_id(v[i], 4);
        } else if i == 5 {
            reveal_strlit("ui.settings.select_settings_value");
            lemma_not_action_id(v[i], 4);
        } else if i == 6 {
            reveal_strlit("ui.settings.set_model_backend");
            lemma_not_action_id(v[i], 4);
        } else if i == 7 {
            reveal_strlit("ui.settings.set_model_device");
            lemma_not_action_id(v[i], 4);
        } else if i == 8 {
            reveal_strlit("ui.settings.set_analysis_quality");
            lemma_not_action_id(v[i], 4);
        } else if i == 9 {
            reveal_strlit("ui.settings.request_setup");
            lemma_not_action_id(v[i], 4);
        } else if i == 10 {
            reveal_strlit("ui.settings.install_audio_model");
            lemma_not_action_id(v[i], 4);
        } else if i == 11 {
            reveal_strlit("ui.settings.remove_audio_model");
            lemma_not_action_id(v[i], 4);
        } else if i == 12 {
            reveal_strlit("ui.settings.cancel_setup");
            lemma_not_action_id(v[i], 4);
        } else if i == 13 {
            reveal_strlit("ui.settings.confirm_setup");
            lemma_not_action_id(v[i], 4);
        } else if i == 14 {
            reveal_strlit("ui.settings.toggle_theme");
            lemma_not_action_id(v[i], 4);
        } else if i == 15 {
            reveal_strlit("ui.settings.adjust_ui_font_scale");
            lemma_not_action_id(v[i], 4);
        } else if i == 16 {
            reveal_strlit("ui.settings.toggle_preserve_continuous_pitch");
            lemma_not_action_id(v[i], 4);
        } else if i == 17 {
            reveal_strlit("ui.settings.toggle_analysis_quantization");
            lemma_not_action_id(v[i], 4);
        } else if i == 18 {
            reveal_strlit("ui.settings.toggle_auto_analyze");
            lemma_not_action_id(v[i], 4);
        } else if i == 19 {
            reveal_strlit("ui.settings.restore_analysis_defaults");
            lemma_not_action_id(v[i], 4);
        } else if i == 20 {
            reveal_strlit("ui.settings.request_clear_cache");
            lemma_not_action_id(v[i], 4);
        } else if i == 21 {
            reveal_strlit("ui.settings.cancel_clear_cache");
            lemma_not_action_id(v[i], 4);
        } else if i == 22 {
            reveal_strlit("ui.settings.confirm_clear_cache");
            lemma_not_action_id(v[i], 4);
        } else if i == 23 {
            reveal_strlit("ui.settings.choose_fusion_agent_adapter");
            lemma_not_action_id(v[i], 4);
        } else {
            reveal_strlit("ui.settings.clear_fusion_agent_adapter");
            lemma_not_action_id(v[i], 4);
        }
    }
    assert forall|i: int, j: int| 0 <= i < 25 && 0 <= j < 25 && i != j implies v[i] != v[j] by {
        assert(settings_id_keys(i) != settings_id_keys(j));
        if v[i] == v[j] {
            assert(id_key(v[i], 12, 1) == id_key(v[j], 12, 1));
        }
    }
    assert forall|i: int| 0 <= i < v.len() implies id_class(#[trigger] v[i]) == 'e' as int by {
        assert(!has_action_prefix(v[i]));
    }
}

spec fn analysis_id_keys(i: int) -> int {
    if i == 0 {
        26114115
    } else if i == 1 {
        33114115
    } else if i == 2 {
        43103097
    } else if i == 3 {
        42103110
    } else if i == 4 {
        31112097
    } else if i == 5 {
        35101111
    } else if i == 6 {
        30110115
    } else if i == 7 {
        37110105
    } else if i == 8 {
        34110100
    } else if i == 9 {
        23108110
    } else if i == 10 {
        40110100
    } else if i == 11 {
        32101111
    } else if i == 12 {
        30101111
    } else if i == 13 {
        35108111
    } else if i == 14 {
        32111111
    } else if i == 15 {
        35095100
    } else if i == 16 {
        44095101
    } else if i == 17 {
        34095115
    } else if i == 18 {
        38095097
    } else if i == 19 {
        34095116
    } else if i == 20 {
        31095105
    } else if i == 21 {
        36117105
    } else if i == 22 {
        36105122
    } else if i == 23 {
        25101108
    } else if i == 24 {
        28118108
    } else if i == 25 {
        24095108
    } else if i == 26 {
        33110101
    } else if i == 27 {
        38117111
    } else if i == 28 {
        37103105
    } else if i == 29 {
        39103110
    } else if i == 30 {
        38115110
    } else if i == 31 {
        30095097
    } else if i == 32 {
        41109101
    } else if i == 33 {
        42117111
    } else if i == 34 {
        41099111
    } else if i == 35 {
        42102111
    } else if i == 36 {
        46112111
    } else if i == 37 {
        30115105
    } else if i == 38 {
        31117105
    } else if i == 39 {
        38103112
    } else if i == 40 {
        38101117
    } else if i == 41 {
        36095105
    } else if i == 42 {
        38101105
    } else if i == 43 {
        36110119
    } else if i == 44 {
        37115119
    } else if i == 45 {
        37117099
    } else if i == 46 {
        31099114
    } else if i == 47 {
        36099099
    } else if i == 48 {
        37102099
    } else if i == 49 {
        41117097
    } else if i == 50 {
        40099097
    } else if i == 51 {
        41102097
    } else if i == 52 {
        42117097
    } else if i == 53 {
        41099097
    } else {
        42102097
    }
}

proof fn lemma_analysis_ids_distinct()
    ensures
        views(spec_analysis_commands()).no_duplicates(),
        forall|i: int|
            0 <= i < views(spec_analysis_commands()).len() ==> id_class(
                #[trigger] views(spec_analysis_commands())[i],
            ) == 'n' as int,
{
    let v = views(spec_analysis_commands());
    reveal_strlit("ui.editor.action.");
    assert(v.len() == 55);
    assert forall|i: int| 0 <= i < 55 implies id_key(#[trigger] v[i], 15, 3) == analysis_id_keys(i)
        && v[i].len() > 4 && v[i][4] == 'n' && !has_action_prefix(v[i]) by {
        if i == 0 {
            reveal_strlit("ui.analysis.start_analysis");
            lemma_not_action_id(v[i], 4);
        } else if i == 1 {
            reveal_strlit("ui.analysis.start_queued_analysis");
            lemma_not_action_id(v[i], 4);
        } else if i == 2 {
            reveal_strlit("ui.analysis.merge_selected_candidate_phrase");
            lemma_not_action_id(v[i], 4);
        } else if i == 3 {
            reveal_strlit("ui.analysis.merge_selected_candidate_range");
            lemma_not_action_id(v[i], 4);
        } else if i == 4 {
            reveal_strlit("ui.analysis.keep_authored_chart");
            lemma_not_action_id(v[i], 4);
        } else if i == 5 {
            reveal_strlit("ui.analysis.select_analysis_history");
            lemma_not_action_id(v[i], 4);
        } else if i == 6 {
            reveal_strlit("ui.analysis.open_song_analysis");
            lemma_not_action_id(v[i], 4);
        } else if i == 7 {
            reveal_strlit("ui.analysis.open_song_model_selection");
            lemma_not_action_id(v[i], 4);
        } else if i == 8 {
            reveal_strlit("ui.analysis.open_processing_studio");
            lemma_not_action_id(v[i], 4);
        } else if i == 9 {
            reveal_strlit("ui.analysis.analyze_now");
            lemma_not_action_id(v[i], 4);
        } else if i == 10 {
            reveal_strlit("ui.analysis.open_empty_processing_studio");
            lemma_not_action_id(v[i], 4);
        } else if i == 11 {
            reveal_strlit("ui.analysis.select_workflow_node");
            lemma_not_action_id(v[i], 4);
        } else if i == 12 {
            reveal_strlit("ui.analysis.move_workflow_node");
            lemma_not_action_id(v[i], 4);
        } else if i == 13 {
            reveal_strlit("ui.analysis.duplicate_workflow_node");
            lemma_not_action_id(v[i], 4);
        } else if i == 14 {
            reveal_strlit("ui.analysis.remove_workflow_node");
            lemma_not_action_id(v[i], 4);
        } else if i == 15 {
            reveal_strlit("ui.analysis.set_workflow_node_model");
            lemma_not_action_id(v[i], 4);
        } else if i == 16 {
            reveal_strlit("ui.analysis.set_workflow_separation_strategy");
            lemma_not_action_id(v[i], 4);
        } else if i == 17 {
            reveal_strlit("ui.analysis.add_workflow_processor");
            lemma_not_action_id(v[i], 4);
        } else if i == 18 {
            reveal_strlit("ui.analysis.add_optional_workflow_card");
            lemma_not_action_id(v[i], 4);
        } else if i == 19 {
            reveal_strlit("ui.analysis.set_workflow_parameter");
            lemma_not_action_id(v[i], 4);
        } else if i == 20 {
            reveal_strlit("ui.analysis.set_workflow_policy");
            lemma_not_action_id(v[i], 4);
        } else if i == 21 {
            reveal_strlit("ui.analysis.adjust_workflow_priority");
            lemma_not_action_id(v[i], 4);
        } else if i == 22 {
            reveal_strlit("ui.analysis.rebind_workflow_analyzer");
            lemma_not_action_id(v[i], 4);
        } else if i == 23 {
            reveal_strlit("ui.analysis.save_workflow");
            lemma_not_action_id(v[i], 4);
        } else if i == 24 {
            reveal_strlit("ui.analysis.preview_workflow");
            lemma_not_action_id(v[i], 4);
        } else if i == 25 {
            reveal_strlit("ui.analysis.run_workflow");
            lemma_not_action_id(v[i], 4);
        } else if i == 26 {
            reveal_strlit("ui.analysis.open_analysis_inspect");
            lemma_not_action_id(v[i], 4);
        } else if i == 27 {
            reveal_strlit("ui.analysis.adjust_analysis_graph_zoom");
            lemma_not_action_id(v[i], 4);
        } else if i == 28 {
            reveal_strlit("ui.analysis.toggle_analysis_mini_view");
            lemma_not_action_id(v[i], 4);
        } else if i == 29 {
            reveal_strlit("ui.analysis.toggle_analysis_model_panel");
            lemma_not_action_id(v[i], 4);
        } else if i == 30 {
            reveal_strlit("ui.analysis.close_analysis_model_panel");
            lemma_not_action_id(v[i], 4);
        } else if i == 31 {
            reveal_strlit("ui.analysis.fit_analysis_graph");
            lemma_not_action_id(v[i], 4);
        } else if i == 32 {
            reveal_strlit("ui.analysis.dismiss_analysis_node_context");
            lemma_not_action_id(v[i], 4);
        } else if i == 33 {
            reveal_strlit("ui.analysis.request_clear_analysis_history");
            lemma_not_action_id(v[i], 4);
        } else if i == 34 {
            reveal_strlit("ui.analysis.cancel_clear_analysis_history");
            lemma_not_action_id(v[i], 4);
        } else if i == 35 {
            reveal_strlit("ui.analysis.confirm_clear_analysis_history");
            lemma_not_action_id(v[i], 4);
        } else if i == 36 {
            reveal_strlit("ui.analysis.compare_node_attempt_with_previous");
            lemma_not_action_id(v[i], 4);
        } else if i == 37 {
            reveal_strlit("ui.analysis.close_plan_preview");
            lemma_not_action_id(v[i], 4);
        } else if i == 38 {
            reveal_strlit("ui.analysis.queue_exact_preview");
            lemma_not_action_id(v[i], 4);
        } else if i == 39 {
            reveal_strlit("ui.analysis.toggle_plan_preview_output");
            lemma_not_action_id(v[i], 4);
        } else if i == 40 {
            reveal_strlit("ui.analysis.reset_plan_preview_outputs");
            lemma_not_action_id(v[i], 4);
        } else if i == 41 {
            reveal_strlit("ui.analysis.set_plan_preview_quality");
            lemma_not_action_id(v[i], 4);
        } else if i == 42 {
            reveal_strlit("ui.analysis.reset_plan_preview_quality");
            lemma_not_action_id(v[i], 4);
        } else if i == 43 {
            reveal_strlit("ui.analysis.open_analysis_log_viewer");
            lemma_not_action_id(v[i], 4);
        } else if i == 44 {
            reveal_strlit("ui.analysis.close_analysis_log_viewer");
            lemma_not_action_id(v[i], 4);
        } else if i == 45 {
            reveal_strlit("ui.analysis.request_delete_song_cache");
            lemma_not_action_id(v[i], 4);
        } else if i == 46 {
            reveal_strlit("ui.analysis.cancel_analysis_run");
            lemma_not_action_id(v[i], 4);
        } else if i == 47 {
            reveal_strlit("ui.analysis.cancel_delete_song_cache");
            lemma_not_action_id(v[i], 4);
        } else if i == 48 {
            reveal_strlit("ui.analysis.confirm_delete_song_cache");
            lemma_not_action_id(v[i], 4);
        } else if i == 49 {
            reveal_strlit("ui.analysis.request_delete_authored_chart");
            lemma_not_action_id(v[i], 4);
        } else if i == 50 {
            reveal_strlit("ui.analysis.cancel_delete_authored_chart");
            lemma_not_action_id(v[i], 4);
        } else if i == 51 {
            reveal_strlit("ui.analysis.confirm_delete_authored_chart");
            lemma_not_action_id(v[i], 4);
        } else if i == 52 {
            reveal_strlit("ui.analysis.request_replace_authored_chart");
            lemma_not_action_id(v[i], 4);
        } else if i == 53 {
            reveal_strlit("ui.analysis.cancel_replace_authored_chart");
            lemma_not_action_id(v[i], 4);
        } else {
            reveal_strlit("ui.analysis.confirm_replace_authored_chart");
            lemma_not_action_id(v[i], 4);
        }
    }
    assert forall|i: int, j: int| 0 <= i < 55 && 0 <= j < 55 && i != j implies v[i] != v[j] by {
        assert(analysis_id_keys(i) != analysis_id_keys(j));
        if v[i] == v[j] {
            assert(id_key(v[i], 15, 3) == id_key(v[j], 15, 3));
        }
    }
    assert forall|i: int| 0 <= i < v.len() implies id_class(#[trigger] v[i]) == 'n' as int by {
        assert(!has_action_prefix(v[i]));
    }
}

spec fn editor_id_keys(i: int) -> int {
    if i == 0 {
        28111114
    } else if i == 1 {
        29099114
    } else if i == 2 {
        34116101
    } else if i == 3 {
        38116115
    } else if i == 4 {
        30115115
    } else if i == 5 {
        24101115
    } else if i == 6 {
        35112101
    } else if i == 7 {
        31110101
    } else if i == 8 {
        26117110
    } else if i == 9 {
        26117100
    } else if i == 10 {
        28115114
    } else if i == 11 {
        47115109
    } else if i == 12 {
        36097121
    } else if i == 13 {
        31112116
    } else if i == 14 {
        30111114
    } else if i == 15 {
        31099114
    } else if i == 16 {
        35116115
    } else if i == 17 {
        32116114
    } else if i == 18 {
        34115101
    } else if i == 19 {
        30115114
    } else if i == 20 {
        28111115
    } else if i == 21 {
        29099115
    } else if i == 22 {
        33099111
    } else if i == 23 {
        32099111
    } else if i == 24 {
        28115115
    } else if i == 25 {
        24115121
    } else if i == 26 {
        26115111
    } else if i == 27 {
        29102109
    } else if i == 28 {
        28111116
    } else if i == 29 {
        29115101
    } else if i == 30 {
        28115100
    } else if i == 31 {
        29115107
    } else if i == 32 {
        33109107
    } else if i == 33 {
        23115100
    } else if i == 34 {
        33116117
    } else if i == 35 {
        34100117
    } else if i == 36 {
        28115122
    } else if i == 37 {
        35115114
    } else if i == 38 {
        35116117
    } else if i == 39 {
        36100117
    } else if i == 40 {
        31100116
    } else if i == 41 {
        30100116
    } else if i == 42 {
        32115101
    } else if i == 43 {
        34115110
    } else if i == 44 {
        36097110
    } else if i == 45 {
        34115109
    } else if i == 46 {
        31115101
    } else if i == 47 {
        34100116
    } else if i == 48 {
        25116101
    } else if i == 49 {
        25114115
    } else if i == 50 {
        21114116
    } else if i == 51 {
        28109110
    } else if i == 52 {
        27097110
    } else if i == 53 {
        27105110
    } else if i == 54 {
        29115114
    } else if i == 55 {
        31097116
    } else if i == 56 {
        32101101
    } else if i == 57 {
        32100108
    } else {
        33100108
    }
}

proof fn lemma_editor_ids_distinct()
    ensures
        views(spec_editor_commands()).no_duplicates(),
        forall|i: int|
            0 <= i < views(spec_editor_commands()).len() ==> id_class(
                #[trigger] views(spec_editor_commands())[i],
            ) == 'd' as int,
{
    let v = views(spec_editor_commands());
    reveal_strlit("ui.editor.action.");
    assert(v.len() == 59);
    assert forall|i: int| 0 <= i < 59 implies id_key(#[trigger] v[i], 10, 1) == editor_id_keys(i)
        && v[i].len() > 4 && v[i][4] == 'd' && !has_action_prefix(v[i]) by {
        if i == 0 {
            reveal_strlit("ui.editor.open_lyrics_editor");
            lemma_not_action_id(v[i], 10);
        } else if i == 1 {
            reveal_strlit("ui.editor.close_lyrics_editor");
            lemma_not_action_id(v[i], 10);
        } else if i == 2 {
            reveal_strlit("ui.editor.toggle_lyrics_input_mode");
            lemma_not_action_id(v[i], 10);
        } else if i == 3 {
            reveal_strlit("ui.editor.toggle_lyrics_separate_stems");
            lemma_not_action_id(v[i], 10);
        } else if i == 4 {
            reveal_strlit("ui.editor.search_lrclib_lyrics");
            lemma_not_action_id(v[i], 10);
        } else if i == 5 {
            reveal_strlit("ui.editor.extract_lyrics");
            lemma_not_action_id(v[i], 10);
        } else if i == 6 {
            reveal_strlit("ui.editor.previous_lrclib_candidate");
            lemma_not_action_id(v[i], 10);
        } else if i == 7 {
            reveal_strlit("ui.editor.next_lrclib_candidate");
            lemma_not_action_id(v[i], 10);
        } else if i == 8 {
            reveal_strlit("ui.editor.use_lrclib_plain");
            lemma_not_action_id(v[i], 10);
        } else if i == 9 {
            reveal_strlit("ui.editor.use_lrclib_timed");
            lemma_not_action_id(v[i], 10);
        } else if i == 10 {
            reveal_strlit("ui.editor.save_lyrics_editor");
            lemma_not_action_id(v[i], 10);
        } else if i == 11 {
            reveal_strlit("ui.editor.save_lyrics_editor_and_run_downstream");
            lemma_not_action_id(v[i], 10);
        } else if i == 12 {
            reveal_strlit("ui.editor.adjust_transcript_boundary");
            lemma_not_action_id(v[i], 11);
        } else if i == 13 {
            reveal_strlit("ui.editor.preview_transcript_at");
            lemma_not_action_id(v[i], 10);
        } else if i == 14 {
            reveal_strlit("ui.editor.open_language_editor");
            lemma_not_action_id(v[i], 10);
        } else if i == 15 {
            reveal_strlit("ui.editor.close_language_editor");
            lemma_not_action_id(v[i], 10);
        } else if i == 16 {
            reveal_strlit("ui.editor.toggle_language_reprocess");
            lemma_not_action_id(v[i], 10);
        } else if i == 17 {
            reveal_strlit("ui.editor.toggle_language_picker");
            lemma_not_action_id(v[i], 10);
        } else if i == 18 {
            reveal_strlit("ui.editor.select_analysis_language");
            lemma_not_action_id(v[i], 10);
        } else if i == 19 {
            reveal_strlit("ui.editor.save_language_editor");
            lemma_not_action_id(v[i], 10);
        } else if i == 20 {
            reveal_strlit("ui.editor.open_song_settings");
            lemma_not_action_id(v[i], 10);
        } else if i == 21 {
            reveal_strlit("ui.editor.close_song_settings");
            lemma_not_action_id(v[i], 10);
        } else if i == 22 {
            reveal_strlit("ui.editor.choose_background_video");
            lemma_not_action_id(v[i], 10);
        } else if i == 23 {
            reveal_strlit("ui.editor.clear_background_video");
            lemma_not_action_id(v[i], 10);
        } else if i == 24 {
            reveal_strlit("ui.editor.save_song_settings");
            lemma_not_action_id(v[i], 10);
        } else if i == 25 {
            reveal_strlit("ui.editor.shift_song_key");
            lemma_not_action_id(v[i], 10);
        } else if i == 26 {
            reveal_strlit("ui.editor.shift_song_tempo");
            lemma_not_action_id(v[i], 10);
        } else if i == 27 {
            reveal_strlit("ui.editor.focus_chart_problem");
            lemma_not_action_id(v[i], 10);
        } else if i == 28 {
            reveal_strlit("ui.editor.open_editor_select");
            lemma_not_action_id(v[i], 10);
        } else if i == 29 {
            reveal_strlit("ui.editor.select_editor_value");
            lemma_not_action_id(v[i], 10);
        } else if i == 30 {
            reveal_strlit("ui.editor.select_editor_word");
            lemma_not_action_id(v[i], 10);
        } else if i == 31 {
            reveal_strlit("ui.editor.select_editor_track");
            lemma_not_action_id(v[i], 10);
        } else if i == 32 {
            reveal_strlit("ui.editor.move_selection_to_track");
            lemma_not_action_id(v[i], 10);
        } else if i == 33 {
            reveal_strlit("ui.editor.set_note_kind");
            lemma_not_action_id(v[i], 10);
        } else if i == 34 {
            reveal_strlit("ui.editor.toggle_editor_file_menu");
            lemma_not_action_id(v[i], 10);
        } else if i == 35 {
            reveal_strlit("ui.editor.dismiss_editor_file_menu");
            lemma_not_action_id(v[i], 10);
        } else if i == 36 {
            reveal_strlit("ui.editor.save_editor_as_utz");
            lemma_not_action_id(v[i], 10);
        } else if i == 37 {
            reveal_strlit("ui.editor.save_editor_as_ultra_star");
            lemma_not_action_id(v[i], 10);
        } else if i == 38 {
            reveal_strlit("ui.editor.toggle_editor_layout_menu");
            lemma_not_action_id(v[i], 10);
        } else if i == 39 {
            reveal_strlit("ui.editor.dismiss_editor_layout_menu");
            lemma_not_action_id(v[i], 10);
        } else if i == 40 {
            reveal_strlit("ui.editor.dismiss_lyric_context");
            lemma_not_action_id(v[i], 10);
        } else if i == 41 {
            reveal_strlit("ui.editor.dismiss_note_context");
            lemma_not_action_id(v[i], 10);
        } else if i == 42 {
            reveal_strlit("ui.editor.select_waveform_source");
            lemma_not_action_id(v[i], 10);
        } else if i == 43 {
            reveal_strlit("ui.editor.select_artifact_audition");
            lemma_not_action_id(v[i], 10);
        } else if i == 44 {
            reveal_strlit("ui.editor.activate_artifact_audition");
            lemma_not_action_id(v[i], 14);
        } else if i == 45 {
            reveal_strlit("ui.editor.select_artifact_waveform");
            lemma_not_action_id(v[i], 10);
        } else if i == 46 {
            reveal_strlit("ui.editor.select_waveform_style");
            lemma_not_action_id(v[i], 10);
        } else if i == 47 {
            reveal_strlit("ui.editor.dismiss_waveform_context");
            lemma_not_action_id(v[i], 10);
        } else if i == 48 {
            reveal_strlit("ui.editor.toggle_evidence");
            lemma_not_action_id(v[i], 10);
        } else if i == 49 {
            reveal_strlit("ui.editor.review_previous");
            lemma_not_action_id(v[i], 10);
        } else if i == 50 {
            reveal_strlit("ui.editor.review_next");
            lemma_not_action_id(v[i], 10);
        } else if i == 51 {
            reveal_strlit("ui.editor.mark_review_region");
            lemma_not_action_id(v[i], 10);
        } else if i == 52 {
            reveal_strlit("ui.editor.accept_suggestion");
            lemma_not_action_id(v[i], 12);
        } else if i == 53 {
            reveal_strlit("ui.editor.ignore_suggestion");
            lemma_not_action_id(v[i], 10);
        } else if i == 54 {
            reveal_strlit("ui.editor.set_problems_filter");
            lemma_not_action_id(v[i], 10);
        } else if i == 55 {
            reveal_strlit("ui.editor.apply_all_lyrics_edit");
            lemma_not_action_id(v[i], 11);
        } else if i == 56 {
            reveal_strlit("ui.editor.extend_lyric_over_note");
            lemma_not_action_id(v[i], 10);
        } else if i == 57 {
            reveal_strlit("ui.editor.dismiss_problems_panel");
            lemma_not_action_id(v[i], 10);
        } else {
            reveal_strlit("ui.editor.dismiss_shortcuts_panel");
            lemma_not_action_id(v[i], 10);
        }
    }
    assert forall|i: int, j: int| 0 <= i < 59 && 0 <= j < 59 && i != j implies v[i] != v[j] by {
        assert(editor_id_keys(i) != editor_id_keys(j));
        if v[i] == v[j] {
            assert(id_key(v[i], 10, 1) == id_key(v[j], 10, 1));
        }
    }
    assert forall|i: int| 0 <= i < v.len() implies id_class(#[trigger] v[i]) == 'd' as int by {
        assert(!has_action_prefix(v[i]));
    }
}

spec fn pointer_id_keys(i: int) -> int {
    if i == 0 {
        32117111
    } else if i == 1 {
        34117101
    } else if i == 2 {
        32117100
    } else if i == 3 {
        23117111
    } else if i == 4 {
        25117103
    } else if i == 5 {
        31117116
    } else if i == 6 {
        38117098
    } else if i == 7 {
        33117121
    } else if i == 8 {
        32117101
    } else if i == 9 {
        31117114
    } else if i == 10 {
        33117099
    } else if i == 11 {
        30117097
    } else if i == 12 {
        36117109
    } else if i == 13 {
        34117105
    } else if i == 14 {
        27117114
    } else if i == 15 {
        29117110
    } else if i == 16 {
        28117095
    } else if i == 17 {
        30117121
    } else if i == 18 {
        35117117
    } else if i == 19 {
        30117105
    } else {
        32117105
    }
}

proof fn lemma_pointer_ids_distinct()
    ensures
        views(spec_pointer_commands()).no_duplicates(),
        forall|i: int|
            0 <= i < views(spec_pointer_commands()).len() ==> id_class(
                #[trigger] views(spec_pointer_commands())[i],
            ) == 'o' as int,
{
    let v = views(spec_pointer_commands());
    reveal_strlit("ui.editor.action.");
    assert(v.len() == 21);
    assert forall|i: int| 0 <= i < 21 implies id_key(#[trigger] v[i], 0, 11) == pointer_id_keys(i)
        && v[i].len() > 4 && v[i][4] == 'o' && !has_action_prefix(v[i]) by {
        if i == 0 {
            reveal_strlit("ui.pointer.analysis_node.primary");
            lemma_not_action_id(v[i], 4);
        } else if i == 1 {
            reveal_strlit("ui.pointer.analysis_node.secondary");
            lemma_not_action_id(v[i], 4);
        } else if i == 2 {
            reveal_strlit("ui.pointer.analysis_edge.primary");
            lemma_not_action_id(v[i], 4);
        } else if i == 3 {
            reveal_strlit("ui.pointer.song.primary");
            lemma_not_action_id(v[i], 4);
        } else if i == 4 {
            reveal_strlit("ui.pointer.song.secondary");
            lemma_not_action_id(v[i], 4);
        } else if i == 5 {
            reveal_strlit("ui.pointer.folder_entry.primary");
            lemma_not_action_id(v[i], 4);
        } else if i == 6 {
            reveal_strlit("ui.pointer.folder_entry.double_primary");
            lemma_not_action_id(v[i], 4);
        } else if i == 7 {
            reveal_strlit("ui.pointer.folder_entry.secondary");
            lemma_not_action_id(v[i], 4);
        } else if i == 8 {
            reveal_strlit("ui.pointer.editor_note.secondary");
            lemma_not_action_id(v[i], 4);
        } else if i == 9 {
            reveal_strlit("ui.pointer.editor_lyric.primary");
            lemma_not_action_id(v[i], 4);
        } else if i == 10 {
            reveal_strlit("ui.pointer.editor_lyric.secondary");
            lemma_not_action_id(v[i], 4);
        } else if i == 11 {
            reveal_strlit("ui.pointer.editor_lane.primary");
            lemma_not_action_id(v[i], 4);
        } else if i == 12 {
            reveal_strlit("ui.pointer.editor_waveform.secondary");
            lemma_not_action_id(v[i], 4);
        } else if i == 13 {
            reveal_strlit("ui.pointer.editor_timeline.primary");
            lemma_not_action_id(v[i], 4);
        } else if i == 14 {
            reveal_strlit("ui.pointer.editor_note_drag");
            lemma_not_action_id(v[i], 4);
        } else if i == 15 {
            reveal_strlit("ui.pointer.editor_note_resize");
            lemma_not_action_id(v[i], 4);
        } else if i == 16 {
            reveal_strlit("ui.pointer.editor_lyric_drag");
            lemma_not_action_id(v[i], 4);
        } else if i == 17 {
            reveal_strlit("ui.pointer.editor_lyric_resize");
            lemma_not_action_id(v[i], 4);
        } else if i == 18 {
            reveal_strlit("ui.pointer.transcript_boundary_drag");
            lemma_not_action_id(v[i], 4);
        } else if i == 19 {
            reveal_strlit("ui.pointer.editor_viewport_pan");
            lemma_not_action_id(v[i], 4);
        } else {
            reveal_strlit("ui.pointer.analysis_viewport_pan");
            lemma_not_action_id(v[i], 4);
        }
    }
    assert forall|i: int, j: int| 0 <= i < 21 && 0 <= j < 21 && i != j implies v[i] != v[j] by {
        assert(pointer_id_keys(i) != pointer_id_keys(j));
        if v[i] == v[j] {
            assert(id_key(v[i], 0, 11) == id_key(v[j], 0, 11));
        }
    }
    assert forall|i: int| 0 <= i < v.len() implies id_class(#[trigger] v[i]) == 'o' as int by {
        assert(!has_action_prefix(v[i]));
    }
}

proof fn lemma_action_ids_distinct(actions: Seq<String>)
    requires
        string_views(actions).no_duplicates(),
    ensures
        editor_action_ids(actions).no_duplicates(),
        forall|i: int|
            0 <= i < editor_action_ids(actions).len() ==> id_class(
                #[trigger] editor_action_ids(actions)[i],
            ) == 0,
{
    let ids = editor_action_ids(actions);
    let prefix = "ui.editor.action."@;
    reveal_strlit("ui.editor.action.");
    assert forall|i: int| 0 <= i < ids.len() implies id_class(#[trigger] ids[i]) == 0 by {
        assert((prefix + actions[i]@).take(17) =~= prefix);
    }
    assert forall|i: int, j: int| 0 <= i < ids.len() && 0 <= j < ids.len() && i != j implies ids[i]
        != ids[j] by {
        assert((prefix + actions[i]@).skip(17) =~= actions[i]@);
        assert((prefix + actions[j]@).skip(17) =~= actions[j]@);
        assert(string_views(actions)[i] != string_views(actions)[j]);
    }
}

/// Appending a duplicate-free part whose ids all have a class outside
/// `classes` keeps the list duplicate-free.
proof fn lemma_append_part(a: Seq<Seq<char>>, b: Seq<Seq<char>>, classes: Set<int>, class: int)
    requires
        a.no_duplicates(),
        b.no_duplicates(),
        forall|i: int| 0 <= i < a.len() ==> classes.contains(id_class(#[trigger] a[i])),
        forall|j: int| 0 <= j < b.len() ==> id_class(#[trigger] b[j]) == class,
        !classes.contains(class),
    ensures
        (a + b).no_duplicates(),
        forall|k: int|
            0 <= k < (a + b).len() ==> classes.insert(class).contains(id_class(#[trigger] (a + b)[k])),
{
    let c = a + b;
    assert forall|k: int| 0 <= k < c.len() implies classes.insert(class).contains(
        id_class(#[trigger] c[k]),
    ) by {
        if k < a.len() {
            assert(c[k] == a[k]);
        } else {
            assert(c[k] == b[k - a.len()]);
        }
    }
    assert forall|i: int, j: int| 0 <= i < c.len() && 0 <= j < c.len() && i != j implies c[i]
        != c[j] by {
        if i < a.len() && j < a.len() {
            assert(c[i] == a[i] && c[j] == a[j]);
        } else if i >= a.len() && j >= a.len() {
            assert(c[i] == b[i - a.len()] && c[j] == b[j - a.len()]);
        } else if i < a.len() {
            assert(c[i] == a[i] && c[j] == b[j - a.len()]);
            assert(classes.contains(id_class(a[i])));
        } else {
            assert(c[j] == a[j] && c[i] == b[i - a.len()]);
            assert(classes.contains(id_class(a[j])));
        }
    }
}

/// No interaction id is registered twice, as long as the editor actions
/// have distinct names.
pub proof fn law_registered_ids_are_distinct(actions: Seq<String>)
    requires
        string_views(actions).no_duplicates(),
    ensures
        spec_registered(actions).no_duplicates(),
{
    lemma_app_ids_distinct();
    lemma_library_ids_distinct();
    lemma_settings_ids_distinct();
    lemma_analysis_ids_distinct();
    lemma_editor_ids_distinct();
    lemma_action_ids_distinct(actions);
    lemma_pointer_ids_distinct();
    let s0 = Set::<int>::empty().insert('p' as int);
    let a = views(spec_app_commands());
    lemma_append_part(a, views(spec_library_commands()), s0, 'i' as int);
    let a = a + views(spec_library_commands());
    let s1 = s0.insert('i' as int);
    lemma_append_part(a, views(spec_settings_commands()), s1, 'e' as int);
    let a = a + views(spec_settings_commands());
    let s2 = s1.insert('e' as int);
    lemma_append_part(a, views(spec_analysis_commands()), s2, 'n' as int);
    let a = a + views(spec_analysis_commands());
    let s3 = s2.insert('n' as int);
    lemma_append_part(a, views(spec_editor_commands()), s3, 'd' as int);
    let a = a + views(spec_editor_commands());
    let s4 = s3.insert('d' as int);
    lemma_append_part(a, editor_action_ids(actions), s4, 0);
    let a = a + editor_action_ids(actions);
    let s5 = s4.insert(0);
    lemma_append_part(a, views(spec_pointer_commands()), s5, 'o' as int);
}

} // verus!
