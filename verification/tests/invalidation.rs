use uta_studio_desktop::invalidation::{
    rebuild_plan, RebuildPlan, RegionRoots, UiDirtyRegion, UiDirtyRegions, UiInvalidated,
    UiRebuildMetrics,
};

#[test]
fn scoped_invalidations_are_coalesced() {
    let mut invalidated = UiInvalidated::default();
    invalidated.invalidate(UiDirtyRegion::Analysis);
    invalidated.invalidate(UiDirtyRegion::Chrome);
    let regions = invalidated.take().unwrap();
    assert!(regions.contains(UiDirtyRegion::Analysis));
    assert!(regions.contains(UiDirtyRegion::Chrome));
    assert!(!regions.contains(UiDirtyRegion::Editor));
}

#[test]
fn content_regions_do_not_force_the_shell_to_rebuild() {
    for region in [
        UiDirtyRegion::Library,
        UiDirtyRegion::Analysis,
        UiDirtyRegion::Editor,
        UiDirtyRegion::Dialog,
        UiDirtyRegion::Settings,
        UiDirtyRegion::Documentation,
    ] {
        let mut invalidated = UiInvalidated::default();
        invalidated.invalidate(region);
        assert!(!invalidated.take().unwrap().requires_full_rebuild());
    }
}

#[test]
fn chrome_invalidations_request_a_full_rebuild() {
    let mut chrome = UiInvalidated::default();
    chrome.invalidate(UiDirtyRegion::Chrome);
    assert!(chrome.take().unwrap().requires_full_rebuild());
}

#[test]
fn a_clean_frame_takes_nothing_and_take_resets() {
    let mut invalidated = UiInvalidated::default();
    assert!(invalidated.take().is_none());
    invalidated.invalidate(UiDirtyRegion::Settings);
    invalidated.invalidate(UiDirtyRegion::Settings);
    let regions = invalidated.take().unwrap();
    assert_eq!(regions.region_names(), vec!["settings"]);
    assert!(invalidated.take().is_none());
}

#[test]
fn masks_are_one_bit_per_region_in_order() {
    assert_eq!(UiDirtyRegion::Library.mask(), 1);
    assert_eq!(UiDirtyRegion::Analysis.mask(), 2);
    assert_eq!(UiDirtyRegion::Editor.mask(), 4);
    assert_eq!(UiDirtyRegion::Dialog.mask(), 8);
    assert_eq!(UiDirtyRegion::Settings.mask(), 16);
    assert_eq!(UiDirtyRegion::Documentation.mask(), 32);
    assert_eq!(UiDirtyRegion::Chrome.mask(), 64);
}

#[test]
fn region_names_follow_the_region_order_not_the_insert_order() {
    let mut regions = UiDirtyRegions::default();
    regions.insert(UiDirtyRegion::Chrome);
    regions.insert(UiDirtyRegion::Library);
    regions.insert(UiDirtyRegion::Dialog);
    assert_eq!(regions.region_names(), vec!["library", "dialog", "chrome"]);
    assert!(UiDirtyRegions::empty().region_names().is_empty());
}

#[test]
fn rebuild_metrics_number_each_rebuild_and_finish_once() {
    let mut metrics = UiRebuildMetrics::default();
    assert!(metrics.finish().is_none());
    let started = std::time::Instant::now();
    metrics.begin(started, std::time::Duration::from_millis(3), 7, UiDirtyRegions::default());
    metrics.begin(started, std::time::Duration::from_millis(4), 9, UiDirtyRegions::default());
    let pending = metrics.finish().unwrap();
    assert_eq!(pending.sequence, 2);
    assert_eq!(pending.old_entities, 9);
    assert!(metrics.finish().is_none());
}

fn regions_of(list: &[UiDirtyRegion]) -> UiDirtyRegions {
    let mut regions = UiDirtyRegions::empty();
    for region in list {
        regions.insert(*region);
    }
    regions
}

const ALL_ROOTS: RegionRoots = RegionRoots { root: true, body: true, workspace: true, editor: true, overlay: true };

#[test]
fn scoped_rebuilds_touch_only_dirty_visible_regions() {
    let library = regions_of(&[UiDirtyRegion::Library]);
    assert_eq!(
        rebuild_plan(library, false, ALL_ROOTS),
        RebuildPlan::Scoped { workspace: true, editor: false, overlay: false }
    );
    assert_eq!(
        rebuild_plan(library, true, ALL_ROOTS),
        RebuildPlan::Scoped { workspace: false, editor: false, overlay: false }
    );
    let editor = regions_of(&[UiDirtyRegion::Editor]);
    assert_eq!(
        rebuild_plan(editor, true, ALL_ROOTS),
        RebuildPlan::Scoped { workspace: false, editor: true, overlay: true }
    );
    let dialog = regions_of(&[UiDirtyRegion::Dialog]);
    assert_eq!(
        rebuild_plan(dialog, false, ALL_ROOTS),
        RebuildPlan::Scoped { workspace: false, editor: false, overlay: true }
    );
}

#[test]
fn chrome_or_missing_roots_rebuild_everything() {
    let chrome = regions_of(&[UiDirtyRegion::Chrome]);
    assert_eq!(rebuild_plan(chrome, false, ALL_ROOTS), RebuildPlan::Full);
    let settings = regions_of(&[UiDirtyRegion::Settings]);
    assert_eq!(
        rebuild_plan(settings, false, RegionRoots { workspace: false, ..ALL_ROOTS }),
        RebuildPlan::Full
    );
    assert_eq!(
        rebuild_plan(settings, true, RegionRoots { workspace: false, ..ALL_ROOTS }),
        RebuildPlan::Scoped { workspace: false, editor: false, overlay: false }
    );
    assert_eq!(rebuild_plan(settings, false, RegionRoots { root: false, ..ALL_ROOTS }), RebuildPlan::Full);
}

#[test]
fn take_hands_out_every_invalidation_once() {
    let mut invalidated = UiInvalidated::default();
    let regions = [UiDirtyRegion::Library, UiDirtyRegion::Dialog, UiDirtyRegion::Library];
    for region in regions {
        invalidated.invalidate(region);
    }
    let taken = invalidated.take().unwrap();
    for region in [
        UiDirtyRegion::Library,
        UiDirtyRegion::Analysis,
        UiDirtyRegion::Editor,
        UiDirtyRegion::Dialog,
        UiDirtyRegion::Settings,
        UiDirtyRegion::Documentation,
        UiDirtyRegion::Chrome,
    ] {
        assert_eq!(taken.contains(region), regions.contains(&region));
    }
    assert!(invalidated.take().is_none());
}
