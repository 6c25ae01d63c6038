//! Scoped UI invalidation: which regions of the studio need rebuilding, and
//! bookkeeping for the rebuild that is in flight.
use std::time::Duration;
use std::time::Instant;

use vstd::prelude::*;

verus! {

/// A monotonic clock reading; only carried through, never inspected.
#[verifier::external_type_specification]
#[verifier::external_body]
pub struct ExInstant(Instant);

/// A region of the studio shell that can be rebuilt on its own.
#[derive(Clone, Copy, Debug, PartialEq, Eq)]
pub enum UiDirtyRegion {
    Library,
    Analysis,
    Editor,
    Dialog,
    Settings,
    Documentation,
    Chrome,
}

/// Every region, in the order the studio lists them.
pub open spec fn all_regions() -> Seq<UiDirtyRegion> {
    seq![
        UiDirtyRegion::Library,
        UiDirtyRegion::Analysis,
        UiDirtyRegion::Editor,
        UiDirtyRegion::Dialog,
        UiDirtyRegion::Settings,
        UiDirtyRegion::Documentation,
        UiDirtyRegion::Chrome,
    ]
}

impl UiDirtyRegion {
    /// Bit position of the region in a dirty mask.
    pub open spec fn bit(self) -> u8 {
        match self {
            UiDirtyRegion::Library => 0,
            UiDirtyRegion::Analysis => 1,
            UiDirtyRegion::Editor => 2,
            UiDirtyRegion::Dialog => 3,
            UiDirtyRegion::Settings => 4,
            UiDirtyRegion::Documentation => 5,
            UiDirtyRegion::Chrome => 6,
        }
    }

    pub open spec fn spec_mask(self) -> u8 {
        1u8 << self.bit()
    }

    /// Lower-case name used when a set of regions is logged.
    pub open spec fn spec_name(self) -> &'static str {
        match self {
            UiDirtyRegion::Library => "library",
            UiDirtyRegion::Analysis => "analysis",
            UiDirtyRegion::Editor => "editor",
            UiDirtyRegion::Dialog => "dialog",
            UiDirtyRegion::Settings => "settings",
            UiDirtyRegion::Documentation => "documentation",
            UiDirtyRegion::Chrome => "chrome",
        }
    }

    fn bit_index(self) -> (b: u8)
        ensures
            b == self.bit(),
    {
        match self {
            UiDirtyRegion::Library => 0,
            UiDirtyRegion::Analysis => 1,
            UiDirtyRegion::Editor => 2,
            UiDirtyRegion::Dialog => 3,
            UiDirtyRegion::Settings => 4,
            UiDirtyRegion::Documentation => 5,
            UiDirtyRegion::Chrome => 6,
        }
    }

    /// The single bit that stands for this region.
    pub fn mask(self) -> (m: u8)
        ensures
            m == self.spec_mask(),
    {
        let b = self.bit_index();
        1u8 << b
    }

    fn name(self) -> (s: &'static str)
        ensures
            s == self.spec_name(),
    {
        match self {
            UiDirtyRegion::Library => "library",
            UiDirtyRegion::Analysis => "analysis",
            UiDirtyRegion::Editor => "editor",
            UiDirtyRegion::Dialog => "dialog",
            UiDirtyRegion::Settings => "settings",
            UiDirtyRegion::Documentation => "documentation",
            UiDirtyRegion::Chrome => "chrome",
        }
    }
}

/// Two region masks overlap exactly when they are the same region.
pub proof fn lemma_masks_disjoint(a: UiDirtyRegion, b: UiDirtyRegion)
    ensures
        (a.spec_mask() & b.spec_mask() != 0) <==> a == b,
{
    let i = a.bit();
    let j = b.bit();
    assert(((1u8 << i) & (1u8 << j) != 0) == (i == j)) by (bit_vector)
        requires
            i < 7,
            j < 7,
    ;
}

/// A set of dirty regions, kept as one bit per region.
#[derive(Clone, Copy, Debug)]
pub struct UiDirtyRegions {
    bits: u8,
}

impl View for UiDirtyRegions {
    type V = Set<UiDirtyRegion>;

    closed spec fn view(&self) -> Set<UiDirtyRegion> {
        Set::new(|r: UiDirtyRegion| self.bits & r.spec_mask() != 0)
    }
}

impl UiDirtyRegions {
    /// No region is dirty.
    pub fn empty() -> (regions: Self)
        ensures
            regions@ == Set::<UiDirtyRegion>::empty(),
    {
        let regions = UiDirtyRegions { bits: 0 };
        assert forall|r: UiDirtyRegion| !regions@.contains(r) by {
            let m = r.spec_mask();
            assert(0u8 & m == 0) by (bit_vector);
        }
        assert(regions@ =~= Set::<UiDirtyRegion>::empty());
        regions
    }

    /// Marks `region` as dirty; other regions keep their state.
    pub fn insert(&mut self, region: UiDirtyRegion)
        ensures
            final(self)@ == old(self)@.insert(region),
    {
        let m = region.mask();
        let old_bits = self.bits;
        self.bits = self.bits | m;
        assert forall|r: UiDirtyRegion| #[trigger] final(self)@.contains(r) == old(self)@.insert(region).contains(r) by {
            let k = r.spec_mask();
            let nb = old_bits | m;
            assert(((old_bits | m) & k != 0) == ((old_bits & k != 0) || (m & k != 0))) by (bit_vector);
            lemma_masks_disjoint(region, r);
        }
        assert(self@ =~= old(self)@.insert(region));
    }

    /// Whether `region` is among the dirty regions.
    pub fn contains(self, region: UiDirtyRegion) -> (b: bool)
        ensures
            b == self@.contains(region),
    {
        self.bits & region.mask() != 0
    }

    /// A chrome change invalidates the whole shell; content regions do not.
    pub fn requires_full_rebuild(self) -> (b: bool)
        ensures
            b == self@.contains(UiDirtyRegion::Chrome),
    {
        self.contains(UiDirtyRegion::Chrome)
    }

    /// Names of the dirty regions, in the studio's region order.
    pub fn region_names(self) -> (names: Vec<&'static str>)
        ensures
            names@ == all_regions().filter(|r: UiDirtyRegion| self@.contains(r)).map_values(
                |r: UiDirtyRegion| r.spec_name(),
            ),
    {
        let regions = [
            UiDirtyRegion::Library,
            UiDirtyRegion::Analysis,
            UiDirtyRegion::Editor,
            UiDirtyRegion::Dialog,
            UiDirtyRegion::Settings,
            UiDirtyRegion::Documentation,
            UiDirtyRegion::Chrome,
        ];
        let ghost all = all_regions();
        let ghost pred = |r: UiDirtyRegion| self@.contains(r);
        let ghost name_of = |r: UiDirtyRegion| r.spec_name();
        assert(regions@ =~= all);
        let mut names: Vec<&'static str> = Vec::new();
        let mut i: usize = 0;
        while i < 7
            invariant
                0 <= i <= 7,
                regions@ == all,
                all == all_regions(),
                pred == (|r: UiDirtyRegion| self@.contains(r)),
                name_of == (|r: UiDirtyRegion| r.spec_name()),
                names@ == all.take(i as int).filter(pred).map_values(name_of),
            decreases 7 - i,
        {
            let region = regions[i];
            proof {
                assert(all.take(i + 1).drop_last() =~= all.take(i as int));
                reveal(Seq::filter);
            }
            let ghost before = names@;
            let present = self.contains(region);
            if present {
                names.push(region.name());
            }
            proof {
                let prev = all.take(i as int).filter(pred);
                assert(all.take(i + 1).filter(pred) == if pred(all[i as int]) {
                    prev.push(all[i as int])
                } else {
                    prev
                });
                assert(present == pred(all[i as int]));
                if pred(all[i as int]) {
                    assert(prev.push(all[i as int]).map_values(name_of) =~= prev.map_values(
                        name_of,
                    ).push(name_of(all[i as int])));
                    assert(names@ == before.push(name_of(all[i as int])));
                } else {
                    assert(names@ == before);
                }
                assert(names@ =~= all.take(i + 1).filter(pred).map_values(name_of));
            }
            i = i + 1;
        }
        assert(all.take(7) =~= all);
        names
    }
}

/// Region sets built from the empty set by inserting `inserted` in order,
/// one state per step.
pub open spec fn built_by_inserts(states: Seq<UiDirtyRegions>, inserted: Seq<UiDirtyRegion>) -> bool {
    &&& states.len() == inserted.len() + 1
    &&& states[0]@ == Set::<UiDirtyRegion>::empty()
    &&& forall|i: int|
        0 <= i < inserted.len() ==> #[trigger] states[i + 1]@ == states[i]@.insert(inserted[i])
}

/// After any inserts into an empty set, exactly the inserted regions are
/// in it.
pub proof fn law_set_holds_what_was_inserted(
    states: Seq<UiDirtyRegions>,
    inserted: Seq<UiDirtyRegion>,
)
    requires
        built_by_inserts(states, inserted),
    ensures
        forall|q: UiDirtyRegion| #[trigger] states.last()@.contains(q) <==> inserted.contains(q),
    decreases inserted.len(),
{
    if inserted.len() > 0 {
        let n = inserted.len() - 1;
        let shorter = states.take(states.len() - 1);
        assert(built_by_inserts(shorter, inserted.take(n))) by {
            assert forall|i: int| 0 <= i < n implies #[trigger] shorter[i + 1]@ == shorter[i]@.insert(
                inserted.take(n)[i],
            ) by {
                assert(states[i + 1]@ == states[i]@.insert(inserted[i]));
            }
        }
        law_set_holds_what_was_inserted(shorter, inserted.take(n));
        assert(states.last()@ == states[n]@.insert(inserted[n]));
        assert(shorter.last() == states[n]);
        assert forall|q: UiDirtyRegion| #[trigger] states.last()@.contains(q) <==> inserted.contains(
            q,
        ) by {
            if inserted.contains(q) && q != inserted[n] {
                let i = choose|i: int| 0 <= i < inserted.len() && inserted[i] == q;
                assert(inserted.take(n)[i] == q);
            }
            if inserted.take(n).contains(q) {
                let i = choose|i: int| 0 <= i < n && inserted.take(n)[i] == q;
                assert(inserted[i] == q);
            }
        }
    } else {
        assert forall|q: UiDirtyRegion| !inserted.contains(q) by {}
    }
}

impl Default for UiDirtyRegions {
    fn default() -> (regions: Self)
        ensures
            regions@ == Set::<UiDirtyRegion>::empty(),
    {
        UiDirtyRegions::empty()
    }
}

/// Invalidation requests gathered between two frames.
pub struct UiInvalidated {
    dirty: bool,
    regions: UiDirtyRegions,
}

impl UiInvalidated {
    /// Nothing is pending while the state is clean.
    #[verifier::type_invariant]
    spec fn clean_means_empty(self) -> bool {
        !self.dirty ==> self.regions@ == Set::<UiDirtyRegion>::empty()
    }

    /// Whether anything has been invalidated since the last `take`.
    pub closed spec fn is_dirty(&self) -> bool {
        self.dirty
    }

    /// The regions invalidated since the last `take`.
    pub closed spec fn pending(&self) -> Set<UiDirtyRegion> {
        self.regions@
    }

    /// Nothing is pending.
    pub fn new() -> (s: Self)
        ensures
            !s.is_dirty(),
            s.pending() == Set::<UiDirtyRegion>::empty(),
    {
        UiInvalidated { dirty: false, regions: UiDirtyRegions::empty() }
    }

    /// Requests a rebuild of `region`; requests coalesce until the next `take`.
    pub fn invalidate(&mut self, region: UiDirtyRegion)
        ensures
            final(self).is_dirty(),
            final(self).pending() == old(self).pending().insert(region),
    {
        let mut regions = self.regions;
        regions.insert(region);
        self.dirty = true;
        self.regions = regions;
    }

    /// Hands out the pending regions, if anything was invalidated, and
    /// starts a fresh, clean round.
    pub fn take(&mut self) -> (taken: Option<UiDirtyRegions>)
        ensures
            taken is None <==> !old(self).is_dirty(),
            taken matches Some(regions) ==> regions@ == old(self).pending(),
            !final(self).is_dirty(),
            final(self).pending() == Set::<UiDirtyRegion>::empty(),
    {
        proof {
            use_type_invariant(&*self);
        }
        if !self.dirty {
            return None;
        }
        let regions = self.regions;
        self.regions = UiDirtyRegions::empty();
        self.dirty = false;
        Some(regions)
    }
}

/// Invalidation states from a clean one (fresh, or right after a `take`)
/// through `invalidate(regions[0])`, ..., `invalidate(regions[k - 1])`, one
/// state per step.
pub open spec fn built_by_invalidations(
    states: Seq<UiInvalidated>,
    regions: Seq<UiDirtyRegion>,
) -> bool {
    &&& states.len() == regions.len() + 1
    &&& !states[0].is_dirty()
    &&& states[0].pending() == Set::<UiDirtyRegion>::empty()
    &&& forall|i: int|
        0 <= i < regions.len() ==> (#[trigger] states[i + 1]).is_dirty() && states[i + 1].pending()
            == states[i].pending().insert(regions[i])
}

/// After invalidating any regions since the last `take`, the next `take`
/// hands out exactly those regions (nothing when there were none), and
/// leaves nothing pending for the one after.
pub proof fn law_take_hands_out_every_invalidation(
    states: Seq<UiInvalidated>,
    regions: Seq<UiDirtyRegion>,
)
    requires
        built_by_invalidations(states, regions),
    ensures
        states.last().is_dirty() <==> regions.len() > 0,
        forall|q: UiDirtyRegion| #[trigger] states.last().pending().contains(q) <==> regions.contains(q),
    decreases regions.len(),
{
    if regions.len() > 0 {
        let n = regions.len() - 1;
        let shorter = states.take(states.len() - 1);
        assert(built_by_invalidations(shorter, regions.take(n))) by {
            assert forall|i: int| 0 <= i < n implies (#[trigger] shorter[i + 1]).is_dirty()
                && shorter[i + 1].pending() == shorter[i].pending().insert(regions.take(n)[i]) by {
                assert(states[i + 1].is_dirty() && states[i + 1].pending() == states[i].pending().insert(regions[i]));
            }
        }
        law_take_hands_out_every_invalidation(shorter, regions.take(n));
        assert(states[n + 1].is_dirty() && states[n + 1].pending() == states[n].pending().insert(regions[n]));
        assert(shorter.last() == states[n]);
        assert forall|q: UiDirtyRegion| #[trigger] states.last().pending().contains(q)
            <==> regions.contains(q) by {
            if regions.contains(q) && q != regions[n] {
                let i = choose|i: int| 0 <= i < regions.len() && regions[i] == q;
                assert(regions.take(n)[i] == q);
            }
            if regions.take(n).contains(q) {
                let i = choose|i: int| 0 <= i < n && regions.take(n)[i] == q;
                assert(regions[i] == q);
            }
        }
    } else {
        assert forall|q: UiDirtyRegion| !regions.contains(q) by {}
    }
}

/// Requests coalesce: invalidating the same regions in any order, any number
/// of times, leaves the same set pending.
pub proof fn law_invalidation_coalesces(
    pending: Set<UiDirtyRegion>,
    a: UiDirtyRegion,
    b: UiDirtyRegion,
)
    ensures
        pending.insert(a).insert(b) == pending.insert(b).insert(a),
        pending.insert(a).insert(a) == pending.insert(a),
{
    assert(pending.insert(a).insert(b) =~= pending.insert(b).insert(a));
    assert(pending.insert(a).insert(a) =~= pending.insert(a));
}

/// The rebuild that was started and whose metrics are still to be reported.
pub struct PendingUiRebuild {
    pub sequence: u64,
    pub started: Instant,
    pub render_elapsed: Duration,
    pub old_entities: usize,
    pub regions: UiDirtyRegions,
}

impl Default for UiInvalidated {
    fn default() -> (s: Self)
        ensures
            !s.is_dirty(),
            s.pending() == Set::<UiDirtyRegion>::empty(),
    {
        UiInvalidated::new()
    }
}

/// Numbers the rebuilds and holds the one in flight.
pub struct UiRebuildMetrics {
    sequence: u64,
    pending: Option<PendingUiRebuild>,
}

impl UiRebuildMetrics {
    /// How many rebuilds have been started.
    pub closed spec fn started_count(&self) -> u64 {
        self.sequence
    }

    /// Whether a started rebuild has not been finished yet.
    pub closed spec fn has_pending(&self) -> bool {
        self.pending is Some
    }

    /// The rebuild in flight, if any.
    pub closed spec fn pending_rebuild(&self) -> Option<PendingUiRebuild> {
        self.pending
    }

    /// The sequence number of the rebuild in flight, if any.
    pub closed spec fn pending_sequence(&self) -> Option<u64> {
        match self.pending {
            Some(p) => Some(p.sequence),
            None => None,
        }
    }

    pub fn new() -> (m: Self)
        ensures
            m.started_count() == 0,
            !m.has_pending(),
    {
        UiRebuildMetrics { sequence: 0, pending: None }
    }

    /// Starts the next rebuild; it replaces any rebuild still in flight.
    pub fn begin(
        &mut self,
        started: Instant,
        render_elapsed: Duration,
        old_entities: usize,
        regions: UiDirtyRegions,
    )
        requires
            old(self).started_count() < u64::MAX,
        ensures
            final(self).started_count() == old(self).started_count() + 1,
            final(self).has_pending(),
            final(self).pending_sequence() == Some(final(self).started_count()),
            final(self).pending_rebuild() == Some(
                (PendingUiRebuild {
                    sequence: final(self).started_count(),
                    started,
                    render_elapsed,
                    old_entities,
                    regions,
                }),
            ),
    {
        self.sequence = self.sequence + 1;
        self.pending = Some(
            PendingUiRebuild {
                sequence: self.sequence,
                started,
                render_elapsed,
                old_entities,
                regions,
            },
        );
    }

    /// Hands out the rebuild in flight, at most once.
    pub fn finish(&mut self) -> (done: Option<PendingUiRebuild>)
        ensures
            done is Some <==> old(self).has_pending(),
            done matches Some(p) ==> Some(p.sequence) == old(self).pending_sequence(),
            done == old(self).pending_rebuild(),
            !final(self).has_pending(),
            final(self).started_count() == old(self).started_count(),
    {
        self.pending.take()
    }
}

/// One call on the rebuild metrics: `begin` with its arguments, or `finish`.
pub enum RebuildStep {
    Begin {
        started: Instant,
        render_elapsed: Duration,
        old_entities: usize,
        regions: UiDirtyRegions,
    },
    Finish,
}

/// What one call does to the metrics, as `begin` and `finish` state it.
pub open spec fn rebuild_step(
    before: UiRebuildMetrics,
    after: UiRebuildMetrics,
    step: RebuildStep,
) -> bool {
    match step {
        RebuildStep::Begin { started, render_elapsed, old_entities, regions } => {
            &&& after.started_count() == before.started_count() + 1
            &&& after.pending_rebuild() == Some(
                (PendingUiRebuild {
                    sequence: after.started_count(),
                    started,
                    render_elapsed,
                    old_entities,
                    regions,
                }),
            )
        },
        RebuildStep::Finish => {
            &&& !after.has_pending()
            &&& after.started_count() == before.started_count()
        },
    }
}

/// How many of `steps` are `begin` calls.
pub open spec fn begin_count(steps: Seq<RebuildStep>) -> nat
    decreases steps.len(),
{
    if steps.len() == 0 {
        0
    } else {
        begin_count(steps.drop_last()) + if steps.last() is Begin {
            1nat
        } else {
            0nat
        }
    }
}

/// The rebuild in flight after `steps`: the one the last `begin` started,
/// numbered by how many `begin` calls there were, unless a `finish` came
/// after it.
pub open spec fn rebuild_in_flight(steps: Seq<RebuildStep>) -> Option<PendingUiRebuild>
    decreases steps.len(),
{
    if steps.len() == 0 {
        None
    } else {
        match steps.last() {
            RebuildStep::Begin { started, render_elapsed, old_entities, regions } => Some(
                PendingUiRebuild {
                    sequence: begin_count(steps) as u64,
                    started,
                    render_elapsed,
                    old_entities,
                    regions,
                },
            ),
            RebuildStep::Finish => None,
        }
    }
}

/// Over any interleaving of `begin` and `finish` calls from fresh metrics,
/// the started count is the number of `begin` calls, and the rebuild in
/// flight (which the next `finish` hands out, once) is the last `begin`'s,
/// numbered by that count, unless a `finish` came after it.
pub proof fn law_finish_reports_the_last_begin(
    states: Seq<UiRebuildMetrics>,
    steps: Seq<RebuildStep>,
)
    requires
        states.len() == steps.len() + 1,
        states[0].started_count() == 0,
        !states[0].has_pending(),
        forall|i: int| 0 <= i < steps.len() ==> rebuild_step(states[i], #[trigger] states[i + 1], steps[i]),
    ensures
        states.last().started_count() == begin_count(steps),
        states.last().pending_rebuild() == rebuild_in_flight(steps),
    decreases steps.len(),
{
    if steps.len() > 0 {
        let n = steps.len() - 1;
        let shorter = states.take(states.len() - 1);
        assert forall|i: int| 0 <= i < n implies rebuild_step(
            shorter[i],
            #[trigger] shorter[i + 1],
            steps.drop_last()[i],
        ) by {
            assert(rebuild_step(states[i], states[i + 1], steps[i]));
        }
        law_finish_reports_the_last_begin(shorter, steps.drop_last());
        assert(shorter.last() == states[n]);
        assert(rebuild_step(states[n], states[n + 1], steps[n]));
        assert(steps.last() == steps[n]);
    }
}

impl Default for UiRebuildMetrics {
    fn default() -> (m: Self)
        ensures
            m.started_count() == 0,
            !m.has_pending(),
    {
        UiRebuildMetrics::new()
    }
}


/// Which region roots of the shell exist right now.
#[derive(Clone, Copy, Debug, PartialEq, Eq)]
pub struct RegionRoots {
    pub root: bool,
    pub body: bool,
    pub workspace: bool,
    pub editor: bool,
    pub overlay: bool,
}

/// What one rebuild does.
#[derive(Clone, Copy, Debug, PartialEq, Eq)]
pub enum RebuildPlan {
    /// Despawn the whole shell and render it again.
    Full,
    /// Respawn only these regions (each when its parent exists).
    Scoped { workspace: bool, editor: bool, overlay: bool },
}

impl UiDirtyRegions {
    /// Some region that the workspace shows is dirty.
    pub open spec fn workspace_dirty(self) -> bool {
        self@.contains(UiDirtyRegion::Library) || self@.contains(UiDirtyRegion::Analysis)
            || self@.contains(UiDirtyRegion::Settings) || self@.contains(
            UiDirtyRegion::Documentation,
        )
    }

    /// The overlay must follow: a dialog changed, or the editor changed
    /// while it is shown (its context menus live in the overlay).
    pub open spec fn overlay_dirty(self, in_editor: bool) -> bool {
        self@.contains(UiDirtyRegion::Dialog) || (self@.contains(UiDirtyRegion::Editor) && in_editor)
    }
}

pub open spec fn spec_rebuild_plan(regions: UiDirtyRegions, in_editor: bool, roots: RegionRoots) -> RebuildPlan {
    let workspace = regions.workspace_dirty() && !in_editor;
    let editor = regions@.contains(UiDirtyRegion::Editor) && in_editor;
    let overlay = regions.overlay_dirty(in_editor);
    let full = regions@.contains(UiDirtyRegion::Chrome) || !roots.root || (workspace && (!roots.body
        || !roots.workspace)) || (editor && !roots.editor) || (overlay && !roots.overlay);
    if full {
        RebuildPlan::Full
    } else {
        RebuildPlan::Scoped { workspace, editor, overlay }
    }
}

/// How to rebuild for the dirty `regions`, given whether the editor route
/// is shown and which region roots exist: the whole shell when the chrome
/// changed or a region to rebuild has no root to rebuild in; otherwise just
/// the dirty regions that are on screen.
pub fn rebuild_plan(regions: UiDirtyRegions, in_editor: bool, roots: RegionRoots) -> (plan: RebuildPlan)
    ensures
        plan == spec_rebuild_plan(regions, in_editor, roots),
{
    let workspace_dirty = regions.contains(UiDirtyRegion::Library) || regions.contains(
        UiDirtyRegion::Analysis,
    ) || regions.contains(UiDirtyRegion::Settings) || regions.contains(UiDirtyRegion::Documentation);
    let editor_dirty = regions.contains(UiDirtyRegion::Editor);
    let overlay_dirty = regions.contains(UiDirtyRegion::Dialog) || (editor_dirty && in_editor);
    let mut full = regions.requires_full_rebuild() || !roots.root;
    if !full && workspace_dirty && !in_editor {
        full = !roots.body || !roots.workspace;
    }
    if !full && editor_dirty && in_editor {
        full = !roots.editor;
    }
    if !full && overlay_dirty {
        full = !roots.overlay;
    }
    if full {
        RebuildPlan::Full
    } else {
        RebuildPlan::Scoped {
            workspace: workspace_dirty && !in_editor,
            editor: editor_dirty && in_editor,
            overlay: overlay_dirty,
        }
    }
}

/// A scoped rebuild never asks for a region that has no root to rebuild
/// in: it happens only with the chrome unchanged and the shell's root
/// present, and every region it rebuilds has its root. Each region it
/// rebuilds is dirty and on screen (the workspace off the editor route; the
/// editor on it; the overlay for dialogs, and for editor changes on the
/// editor route), and each such region is rebuilt.
pub proof fn law_scoped_plans_rebuild_regions_that_exist(
    regions: UiDirtyRegions,
    in_editor: bool,
    roots: RegionRoots,
)
    ensures
        spec_rebuild_plan(regions, in_editor, roots) matches RebuildPlan::Scoped {
            workspace,
            editor,
            overlay,
        } ==> {
            &&& !regions@.contains(UiDirtyRegion::Chrome)
            &&& roots.root
            &&& workspace ==> roots.body && roots.workspace
            &&& editor ==> roots.editor
            &&& overlay ==> roots.overlay
            &&& workspace == (!in_editor && (regions@.contains(UiDirtyRegion::Library)
                || regions@.contains(UiDirtyRegion::Analysis) || regions@.contains(
                UiDirtyRegion::Settings,
            ) || regions@.contains(UiDirtyRegion::Documentation)))
            &&& editor == (in_editor && regions@.contains(UiDirtyRegion::Editor))
            &&& overlay == (regions@.contains(UiDirtyRegion::Dialog) || (in_editor
                && regions@.contains(UiDirtyRegion::Editor)))
        },
{
}

/// The whole shell is rebuilt exactly when the chrome changed, the shell's
/// root is gone, or a dirty region on screen has no root to rebuild in; in
/// particular an editor change on the editor route without an editor root
/// rebuilds everything.
pub proof fn law_full_rebuild_when_a_root_is_missing(
    regions: UiDirtyRegions,
    in_editor: bool,
    roots: RegionRoots,
)
    ensures
        (spec_rebuild_plan(regions, in_editor, roots) == RebuildPlan::Full) <==> (regions@.contains(
            UiDirtyRegion::Chrome,
        ) || !roots.root || (!in_editor && (regions@.contains(UiDirtyRegion::Library)
            || regions@.contains(UiDirtyRegion::Analysis) || regions@.contains(
            UiDirtyRegion::Settings,
        ) || regions@.contains(UiDirtyRegion::Documentation)) && (!roots.body || !roots.workspace))
            || (in_editor && regions@.contains(UiDirtyRegion::Editor) && !roots.editor) || ((
        regions@.contains(UiDirtyRegion::Dialog) || (in_editor && regions@.contains(
            UiDirtyRegion::Editor,
        ))) && !roots.overlay)),
        in_editor && regions@.contains(UiDirtyRegion::Editor) && !roots.editor ==> spec_rebuild_plan(
            regions,
            in_editor,
            roots,
        ) == RebuildPlan::Full,
{
}

/// With the shell on screen, content changes rebuild only their own
/// regions: a set without the chrome never forces a full rebuild, and each
/// region is rebuilt exactly when it is dirty and shown.
pub proof fn law_content_changes_stay_scoped(regions: UiDirtyRegions, in_editor: bool)
    requires
        !regions@.contains(UiDirtyRegion::Chrome),
    ensures
        spec_rebuild_plan(
            regions,
            in_editor,
            (RegionRoots { root: true, body: true, workspace: true, editor: true, overlay: true }),
        ) == (RebuildPlan::Scoped {
            workspace: regions.workspace_dirty() && !in_editor,
            editor: regions@.contains(UiDirtyRegion::Editor) && in_editor,
            overlay: regions.overlay_dirty(in_editor),
        }),
{
}

/// A chrome change, or a missing shell, always rebuilds everything.
pub proof fn law_chrome_rebuilds_everything(regions: UiDirtyRegions, in_editor: bool, roots: RegionRoots)
    requires
        regions@.contains(UiDirtyRegion::Chrome) || !roots.root,
    ensures
        spec_rebuild_plan(regions, in_editor, roots) == (RebuildPlan::Full),
{
}

} // verus!
