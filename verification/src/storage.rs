//! Settings › Storage: the export folder, the watched folders and what the
//! generated-storage panel reports.
use vstd::prelude::*;

use crate::settings::ThemeColor;
use crate::song_workspace::Confirmation;
use crate::text::{owned, push_str};
use crate::ui_api::{action_view, button, plain_button, UiAction, UiCommand, UiDomain};

verus! {

pub open spec fn spec_export_folder_copy(export_path: Option<Seq<char>>) -> Seq<char> {
    "Every format opens Save As here first. You can still choose another folder for each export.\n\n"@
        + match export_path {
        Some(p) => p,
        None => "Use the last folder chosen by the system dialog"@,
    }
}

/// The description of the default export folder setting.
pub fn export_folder_copy(export_path: Option<&str>) -> (copy: String)
    ensures
        copy@ == spec_export_folder_copy(
            match export_path {
                Some(p) => Some(p@),
                None => None,
            },
        ),
{
    let mut copy = owned(
        "Every format opens Save As here first. You can still choose another folder for each export.\n\n",
    );
    match export_path {
        Some(p) => push_str(&mut copy, p),
        None => push_str(&mut copy, "Use the last folder chosen by the system dialog"),
    }
    copy
}

/// The watched folders, each with the action that asks to remove it.
pub fn watched_folder_rows(paths: &Vec<String>) -> (rows: Vec<(String, UiAction)>)
    ensures
        rows.len() == paths.len(),
        forall|i: int|
            0 <= i < paths.len() ==> {
                let (path, action) = #[trigger] rows@[i];
                &&& path@ == paths@[i]@
                &&& action.0.domain == UiDomain::Library
                &&& action.0.variant@ == "RequestRemoveFolder"@
                &&& action.0.payload@.len() == 1
                &&& action.0.payload@[0]@ == paths@[i]@
            },
{
    let mut rows: Vec<(String, UiAction)> = Vec::new();
    let mut i: usize = 0;
    while i < paths.len()
        invariant
            i <= paths.len(),
            rows.len() == i,
            forall|k: int|
                0 <= k < i ==> {
                    let (path, action) = #[trigger] rows@[k];
                    &&& path@ == paths@[k]@
                    &&& action.0.domain == UiDomain::Library
                    &&& action.0.variant@ == "RequestRemoveFolder"@
                    &&& action.0.payload@.len() == 1
                    &&& action.0.payload@[0]@ == paths@[k]@
                },
        decreases paths.len() - i,
    {
        let path = paths[i].as_str();
        rows.push(
            (
                owned(path),
                UiAction(UiCommand::with_value(UiDomain::Library, "RequestRemoveFolder", path)),
            ),
        );
        i = i + 1;
    }
    rows
}

/// The sizes of the generated-data categories, in bytes.
#[derive(Clone, Copy, Debug, PartialEq, Eq)]
pub struct CacheStats {
    pub songs_bytes: u64,
    pub models_bytes: u64,
    pub other_bytes: u64,
}

impl CacheStats {
    pub open spec fn spec_total(self) -> int {
        self.songs_bytes + self.models_bytes + self.other_bytes
    }

    /// All generated data together.
    pub fn total(&self) -> (total: u64)
        requires
            self.spec_total() <= u64::MAX,
        ensures
            total == self.spec_total(),
    {
        self.songs_bytes + self.models_bytes + self.other_bytes
    }
}

/// What the usage panel says under its status badge.
#[derive(Debug, PartialEq, Eq)]
pub enum StorageSummary {
    /// The latest scan found this much generated data.
    LatestScan(u64),
    /// A new scan runs; the last one found this much.
    Recalculating(u64),
    /// Fixed wording.
    Plain(&'static str),
    /// The last scan failed with this error.
    Failed(String),
}

/// The status of the generated-storage panel.
#[derive(Debug, PartialEq, Eq)]
pub struct StorageUsageStatus {
    pub status: &'static str,
    pub status_color: ThemeColor,
    pub summary: StorageSummary,
    pub summary_color: ThemeColor,
}

/// The badge, the summary and their colours for the last scan result, whether
/// a scan is running and the last scan error. An error replaces the summary
/// but not the badge.
pub fn storage_usage_status(current: Option<CacheStats>, scanning: bool, error: Option<&str>) -> (status:
    StorageUsageStatus)
    requires
        current matches Some(stats) ==> stats.spec_total() <= u64::MAX,
    ensures
        status.status == match (current, scanning) {
            (Some(_), false) => "Current",
            (Some(_), true) => "Recalculating",
            (None, true) => "Calculating",
            (None, false) => "Not calculated",
        },
        status.status_color == match (current, scanning) {
            (Some(_), false) => ThemeColor::Foreground,
            (None, false) => ThemeColor::MutedForeground,
            _ => ThemeColor::Primary,
        },
        error is None ==> status.summary == match (current, scanning) {
            (Some(stats), false) => StorageSummary::LatestScan(stats.spec_total() as u64),
            (Some(stats), true) => StorageSummary::Recalculating(stats.spec_total() as u64),
            (None, true) => StorageSummary::Plain(
                "Calculating generated storage usage. This may scan configured cache folders.",
            ),
            (None, false) => StorageSummary::Plain(
                "Open Storage again or clear one cache entry to start a scan.",
            ),
        },
        error matches Some(e) ==> status.summary matches StorageSummary::Failed(f) && f@ == e@,
        status.summary_color == if error is Some {
            ThemeColor::Destructive
        } else {
            ThemeColor::MutedForeground
        },
{
    let (status, status_color, summary) = match current {
        Some(stats) => {
            let total = stats.total();
            if scanning {
                ("Recalculating", ThemeColor::Primary, StorageSummary::Recalculating(total))
            } else {
                ("Current", ThemeColor::Foreground, StorageSummary::LatestScan(total))
            }
        },
        None => if scanning {
            (
                "Calculating",
                ThemeColor::Primary,
                StorageSummary::Plain(
                    "Calculating generated storage usage. This may scan configured cache folders.",
                ),
            )
        } else {
            (
                "Not calculated",
                ThemeColor::MutedForeground,
                StorageSummary::Plain("Open Storage again or clear one cache entry to start a scan."),
            )
        },
    };
    match error {
        Some(e) => StorageUsageStatus {
            status,
            status_color,
            summary: StorageSummary::Failed(owned(e)),
            summary_color: ThemeColor::Destructive,
        },
        None => StorageUsageStatus {
            status,
            status_color,
            summary,
            summary_color: ThemeColor::MutedForeground,
        },
    }
}

/// The breakdown bars of a scan: each category with its size.
pub fn storage_breakdown(stats: CacheStats) -> (bars: Vec<(&'static str, u64)>)
    ensures
        bars@ == seq![
            ("Songs", stats.songs_bytes),
            ("Models", stats.models_bytes),
            ("Other", stats.other_bytes),
        ],
{
    let bars = vec![
        ("Songs", stats.songs_bytes),
        ("Models", stats.models_bytes),
        ("Other", stats.other_bytes),
    ];
    assert(bars@ =~= seq![
        ("Songs", stats.songs_bytes),
        ("Models", stats.models_bytes),
        ("Other", stats.other_bytes),
    ]);
    bars
}


/// What a global cache clear removes.
#[derive(Clone, Copy, Debug, PartialEq, Eq)]
pub enum CacheClearScope {
    /// Everything generated from the songs.
    Generated,
}

/// Builds the confirmation before clearing the cache of `scope`: what goes
/// and what stays, with the buttons that back out and that clear now.
pub fn spawn_global_cache_confirmation(scope: CacheClearScope) -> (dialog: Confirmation)
    ensures
        scope == CacheClearScope::Generated ==> dialog.heading == "Clear generated cache?"
            && dialog.body@
            == "Generated stems, charts, previews, and authoring variants will be removed. Indexed source songs and installed models remain untouched."@,
        action_view(dialog.cancel) == button("Cancel"@, UiDomain::Settings, "CancelClearCache"@, Seq::empty()),
        dialog.confirm matches Some(c) && action_view(c) == button(
            "Clear now"@,
            UiDomain::Settings,
            "ConfirmClearCache"@,
            Seq::empty(),
        ),
{
    let (heading, body) = match scope {
        CacheClearScope::Generated => (
            "Clear generated cache?",
            "Generated stems, charts, previews, and authoring variants will be removed. Indexed source songs and installed models remain untouched.",
        ),
    };
    Confirmation {
        heading,
        body: owned(body),
        cancel: plain_button("Cancel", UiDomain::Settings, "CancelClearCache"),
        confirm: Some(plain_button("Clear now", UiDomain::Settings, "ConfirmClearCache")),
    }
}

/// The button of the usage panel that asks to clear the generated cache.
pub fn clear_generated_cache_action() -> (action: (String, UiAction))
    ensures
        action_view(action) == button(
            "Clear generated cache"@,
            UiDomain::Settings,
            "RequestClearCache"@,
            seq!["Generated"@],
        ),
{
    crate::ui_api::button_with_value("Clear generated cache", UiDomain::Settings, "RequestClearCache", "Generated")
}

} // verus!
