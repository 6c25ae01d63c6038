use uta_studio_desktop::settings::ThemeColor;
use uta_studio_desktop::storage::{
    clear_generated_cache_action, export_folder_copy, spawn_global_cache_confirmation,
    storage_breakdown, storage_usage_status, watched_folder_rows, CacheClearScope, CacheStats,
    StorageSummary,
};
use uta_studio_desktop::ui_api::{UiAction, UiCommand, UiDomain};

const STATS: CacheStats = CacheStats { songs_bytes: 700, models_bytes: 200, other_bytes: 100 };

#[test]
fn export_folder_falls_back_to_the_system_dialog() {
    assert_eq!(
        export_folder_copy(None),
        "Every format opens Save As here first. You can still choose another folder for each export.\n\nUse the last folder chosen by the system dialog"
    );
    assert!(export_folder_copy(Some("/music/out")).ends_with("\n\n/music/out"));
}

#[test]
fn watched_folders_each_offer_their_removal() {
    let rows = watched_folder_rows(&vec!["/a".to_string(), "/b".to_string()]);
    assert_eq!(rows.len(), 2);
    assert_eq!(rows[1].0, "/b");
    assert_eq!(
        rows[1].1,
        UiAction(UiCommand::with_value(UiDomain::Library, "RequestRemoveFolder", "/b"))
    );
    assert!(watched_folder_rows(&Vec::new()).is_empty());
}

#[test]
fn usage_status_follows_the_scan_state() {
    let current = storage_usage_status(Some(STATS), false, None);
    assert_eq!(current.status, "Current");
    assert_eq!(current.status_color, ThemeColor::Foreground);
    assert_eq!(current.summary, StorageSummary::LatestScan(1000));
    assert_eq!(current.summary_color, ThemeColor::MutedForeground);

    let again = storage_usage_status(Some(STATS), true, None);
    assert_eq!(again.status, "Recalculating");
    assert_eq!(again.status_color, ThemeColor::Primary);
    assert_eq!(again.summary, StorageSummary::Recalculating(1000));

    let first = storage_usage_status(None, true, None);
    assert_eq!(first.status, "Calculating");
    assert_eq!(
        first.summary,
        StorageSummary::Plain("Calculating generated storage usage. This may scan configured cache folders.")
    );

    let idle = storage_usage_status(None, false, None);
    assert_eq!(idle.status, "Not calculated");
    assert_eq!(idle.status_color, ThemeColor::MutedForeground);
}

#[test]
fn a_scan_error_replaces_the_summary_but_not_the_badge() {
    let failed = storage_usage_status(Some(STATS), false, Some("permission denied"));
    assert_eq!(failed.status, "Current");
    assert_eq!(failed.summary, StorageSummary::Failed("permission denied".to_string()));
    assert_eq!(failed.summary_color, ThemeColor::Destructive);
}

#[test]
fn breakdown_lists_songs_models_and_other() {
    assert_eq!(
        storage_breakdown(STATS),
        vec![("Songs", 700), ("Models", 200), ("Other", 100)]
    );
    assert_eq!(STATS.total(), 1000);
}

#[test]
fn clearing_the_generated_cache_is_confirmed_first() {
    let (caption, request) = clear_generated_cache_action();
    assert_eq!(caption, "Clear generated cache");
    assert_eq!(request, UiAction(UiCommand::with_value(UiDomain::Settings, "RequestClearCache", "Generated")));
    let dialog = spawn_global_cache_confirmation(CacheClearScope::Generated);
    assert_eq!(dialog.heading, "Clear generated cache?");
    assert!(dialog.body.ends_with("Indexed source songs and installed models remain untouched."));
    assert_eq!(dialog.cancel.1, UiAction(UiCommand::new(UiDomain::Settings, "CancelClearCache")));
    assert_eq!(dialog.confirm.unwrap().0, "Clear now");
}
