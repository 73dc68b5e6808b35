//! The bookkeeping side of a page table.
//!
//! A [`PageTableHandle`] never touches table memory. It holds the list of
//! mappings that have to be made, hands them out one action at a time, and
//! records what the table accepted. Whoever owns the real table performs
//! each [`TableAction`] and reports the outcome as a [`TableEvent`];
//! [`PageTableHandle::step`] turns state and event into the next state and
//! the next action.

use vstd::prelude::*;
use super::{MapRegion, PagingError};

verus! {

/// Where the frames of a table come from.
#[derive(Clone, Copy, Debug, PartialEq, Eq, Structural)]
pub enum FrameSource {
    /// A bump allocator over `size` bytes of physical memory at `start`.
    Bump { start: usize, size: usize },
    /// The general heap.
    Heap,
}

/// How far the build of a table has come.
#[derive(Clone, Copy, Debug, PartialEq, Eq, Structural)]
pub enum Phase {
    /// Nothing has been asked of the table yet.
    Idle,
    /// The empty root table has been asked for.
    Creating,
    /// The request with this index in the plan has been handed out.
    Mapping(usize),
    /// The switch of the translation base to the new root has been asked for.
    Installing,
    /// The flush of all cached translations has been asked for.
    Flushing,
    /// The memory fence that ends the switch has been asked for.
    Fencing,
    /// The table is complete and, where asked for, active.
    Ready,
    /// The build stopped with this error.
    Failed(PagingError),
}

/// What happened to the action handed out last.
#[derive(Clone, Copy, Debug, PartialEq, Eq, Structural)]
pub enum TableEvent {
    /// Nothing happened yet: asks for the action that is pending.
    Begin,
    /// The action was carried out. `root` is the physical address of the
    /// table's root.
    Succeeded { root: usize },
    /// The action failed.
    Failed(PagingError),
}

/// What the owner of the table has to do next.
#[derive(Clone, Copy, Debug)]
pub enum TableAction {
    /// Create an empty root table with frames from this source.
    CreateEmpty(FrameSource),
    /// Map this region.
    MapRegion(MapRegion),
    /// Make the table with this root the active one.
    Install { root: usize },
    /// Drop every cached translation.
    FlushAll,
    /// Order all earlier writes before what follows.
    Fence,
    /// Nothing is left to do; the table's root is at this address.
    Finished { root: usize },
    /// Stop: the build failed.
    Abort(PagingError),
}

/// The mathematical state of a [`PageTableHandle`].
pub struct TableState {
    /// The mappings to ask for, in order.
    pub plan: Seq<MapRegion>,
    /// The mappings that the table accepted, in the order of acceptance.
    pub mapped: Seq<MapRegion>,
    pub phase: Phase,
    /// The root's physical address, once the table exists.
    pub root: usize,
    pub frames: FrameSource,
    /// Whether the table is made the active one when the plan is done.
    pub activate: bool,
    /// The distance from a physical address to its permanent virtual one.
    pub va_offset: usize,
}

impl TableState {
    /// Every region fits in the address space and a request that is under
    /// way is one of the plan.
    pub open spec fn wf(self) -> bool {
        &&& self.plan.len() <= usize::MAX
        &&& forall|i: int| 0 <= i < self.plan.len() ==> (#[trigger] self.plan[i]).fits()
        &&& forall|i: int| 0 <= i < self.mapped.len() ==> (#[trigger] self.mapped[i]).fits()
        &&& self.phase matches Phase::Mapping(i) ==> i < self.plan.len()
    }

    /// The state before anything was asked of the table.
    pub open spec fn fresh(self) -> bool {
        &&& self.phase == Phase::Idle
        &&& self.mapped == Seq::<MapRegion>::empty()
    }

    /// The phase once the first `done` requests of the plan are dealt with.
    pub open spec fn phase_after(self, done: int) -> Phase {
        if done < self.plan.len() {
            Phase::Mapping(done as usize)
        } else if self.activate {
            Phase::Installing
        } else {
            Phase::Ready
        }
    }

    /// The state that follows `self` on `event`.
    pub open spec fn next(self, event: TableEvent) -> TableState {
        match (self.phase, event) {
            (Phase::Idle, _) => TableState { phase: Phase::Creating, ..self },
            (Phase::Ready, _) => self,
            (Phase::Failed(_), _) => self,
            (_, TableEvent::Begin) => self,
            (_, TableEvent::Failed(e)) => match self.phase {
                Phase::Mapping(i) if !self.plan[i as int].required => TableState {
                    phase: self.phase_after(i + 1),
                    ..self
                },
                _ => TableState { phase: Phase::Failed(e), ..self },
            },
            (Phase::Creating, TableEvent::Succeeded { root }) => TableState {
                root,
                phase: self.phase_after(0),
                ..self
            },
            (Phase::Mapping(i), TableEvent::Succeeded { .. }) => TableState {
                mapped: self.mapped.push(self.plan[i as int]),
                phase: self.phase_after(i + 1),
                ..self
            },
            (Phase::Installing, TableEvent::Succeeded { .. }) => TableState {
                phase: Phase::Flushing,
                ..self
            },
            (Phase::Flushing, TableEvent::Succeeded { .. }) => TableState {
                phase: Phase::Fencing,
                ..self
            },
            (Phase::Fencing, TableEvent::Succeeded { .. }) => TableState {
                phase: Phase::Ready,
                ..self
            },
        }
    }

    /// The action that is due in this state.
    pub open spec fn pending(self) -> TableAction {
        match self.phase {
            Phase::Idle => TableAction::CreateEmpty(self.frames),
            Phase::Creating => TableAction::CreateEmpty(self.frames),
            Phase::Mapping(i) => TableAction::MapRegion(self.plan[i as int]),
            Phase::Fencing => TableAction::Fence,
            Phase::Installing => TableAction::Install { root: self.root },
            Phase::Flushing => TableAction::FlushAll,
            Phase::Ready => TableAction::Finished { root: self.root },
            Phase::Failed(e) => TableAction::Abort(e),
        }
    }

    /// The state after a whole sequence of events.
    pub open spec fn run(self, events: Seq<TableEvent>) -> TableState
        decreases events.len(),
    {
        if events.len() == 0 {
            self
        } else {
            self.run(events.drop_last()).next(events.last())
        }
    }

    /// The translation of `vaddr` by the first accepted mapping that covers
    /// it, if there is one.
    pub open spec fn translation(self, vaddr: int) -> Option<int> {
        first_translation(self.mapped, vaddr)
    }
}

/// The translation of `vaddr` by the first of `regions` that covers it.
pub open spec fn first_translation(regions: Seq<MapRegion>, vaddr: int) -> Option<int>
    decreases regions.len(),
{
    if regions.len() == 0 {
        None
    } else if regions[0].covers(vaddr) {
        Some(regions[0].phys_of(vaddr))
    } else {
        first_translation(regions.drop_first(), vaddr)
    }
}

/// What `first_translation` finds is the answer of one of the regions that
/// cover the address, and it finds nothing only where none does.
pub proof fn lemma_first_translation(regions: Seq<MapRegion>, vaddr: int)
    ensures
        first_translation(regions, vaddr) matches Some(p) ==> exists|i: int|
            0 <= i < regions.len() && (#[trigger] regions[i]).covers(vaddr) && p
                == regions[i].phys_of(vaddr),
        first_translation(regions, vaddr) is None ==> forall|i: int|
            0 <= i < regions.len() ==> !(#[trigger] regions[i]).covers(vaddr),
    decreases regions.len(),
{
    if regions.len() > 0 && !regions[0].covers(vaddr) {
        let rest = regions.drop_first();
        lemma_first_translation(rest, vaddr);
        if let Some(p) = first_translation(rest, vaddr) {
            let i = choose|i: int|
                0 <= i < rest.len() && (#[trigger] rest[i]).covers(vaddr) && p == rest[i].phys_of(
                    vaddr,
                );
            assert(regions[i + 1] == rest[i]);
        } else {
            assert forall|i: int| 0 <= i < regions.len() implies !(#[trigger] regions[i]).covers(
                vaddr,
            ) by {
                if i > 0 {
                    assert(regions[i] == rest[i - 1]);
                }
            }
        }
    }
}

/// The owner of a table's root address and of the record of its mappings.
pub struct PageTableHandle {
    plan: Vec<MapRegion>,
    mapped: Vec<MapRegion>,
    phase: Phase,
    root: usize,
    frames: FrameSource,
    activate: bool,
    va_offset: usize,
}

impl View for PageTableHandle {
    type V = TableState;

    closed spec fn view(&self) -> TableState {
        TableState {
            plan: self.plan@,
            mapped: self.mapped@,
            phase: self.phase,
            root: self.root,
            frames: self.frames,
            activate: self.activate,
            va_offset: self.va_offset,
        }
    }
}

impl PageTableHandle {
    #[verifier::type_invariant]
    spec fn inv(self) -> bool {
        self@.wf()
    }

    /// A handle on a table that does not exist yet, with the mappings it is
    /// to receive.
    pub(crate) fn new(
        plan: Vec<MapRegion>,
        frames: FrameSource,
        activate: bool,
        va_offset: usize,
    ) -> (r: Self)
        requires
            forall|i: int| 0 <= i < plan@.len() ==> (#[trigger] plan@[i]).fits(),
        ensures
            r@.plan == plan@,
            r@.frames == frames,
            r@.activate == activate,
            r@.va_offset == va_offset,
            r@.root == 0,
            r@.fresh(),
            r@.wf(),
    {
        assert(plan.len() == plan@.len());
        PageTableHandle {
            plan,
            mapped: Vec::new(),
            phase: Phase::Idle,
            root: 0,
            frames,
            activate,
            va_offset,
        }
    }

    /// How far the build has come.
    pub fn phase(&self) -> (r: Phase)
        ensures
            r == self@.phase,
    {
        self.phase
    }

    /// The distance from a physical address to its permanent virtual one.
    pub fn va_offset(&self) -> (r: usize)
        ensures
            r == self@.va_offset,
    {
        self.va_offset
    }

    /// The physical address of the root, once the table has been created
    /// and the build has not failed.
    pub fn paddr(&self) -> (r: Option<usize>)
        ensures
            r == (match self@.phase {
                Phase::Idle | Phase::Creating | Phase::Failed(_) => None,
                _ => Some(self@.root),
            }),
    {
        match self.phase {
            Phase::Idle | Phase::Creating | Phase::Failed(_) => None,
            _ => Some(self.root),
        }
    }

    /// The phase once the first `done` requests of the plan are dealt with.
    fn phase_after(&self, done: usize) -> (r: Phase)
        ensures
            r == self@.phase_after(done as int),
    {
        if done < self.plan.len() {
            Phase::Mapping(done)
        } else if self.activate {
            Phase::Installing
        } else {
            Phase::Ready
        }
    }

    /// The action that is due.
    pub fn pending(&self) -> (r: TableAction)
        ensures
            r == self@.pending(),
    {
        proof {
            use_type_invariant(self);
        }
        match self.phase {
            Phase::Idle => TableAction::CreateEmpty(self.frames),
            Phase::Creating => TableAction::CreateEmpty(self.frames),
            Phase::Mapping(i) => TableAction::MapRegion(self.plan[i]),
            Phase::Fencing => TableAction::Fence,
            Phase::Installing => TableAction::Install { root: self.root },
            Phase::Flushing => TableAction::FlushAll,
            Phase::Ready => TableAction::Finished { root: self.root },
            Phase::Failed(e) => TableAction::Abort(e),
        }
    }

    /// Takes note of what happened to the action handed out last and says
    /// what is to be done next.
    pub fn step(&mut self, event: TableEvent) -> (action: TableAction)
        ensures
            final(self)@ == old(self)@.next(event),
            action == final(self)@.pending(),
            final(self)@.wf(),
    {
        proof {
            use_type_invariant(&*self);
        }
        match self.phase {
            Phase::Idle => {
                self.phase = Phase::Creating;
            },
            Phase::Ready => {},
            Phase::Failed(_) => {},
            Phase::Creating => {
                match event {
                    TableEvent::Begin => {},
                    TableEvent::Failed(e) => {
                        self.phase = Phase::Failed(e);
                    },
                    TableEvent::Succeeded { root } => {
                        self.root = root;
                        self.phase = self.phase_after(0);
                    },
                }
            },
            Phase::Mapping(i) => {
                assert(i < self.plan.len());
                match event {
                    TableEvent::Begin => {},
                    TableEvent::Failed(e) => {
                        if self.plan[i].required {
                            self.phase = Phase::Failed(e);
                        } else {
                            self.phase = self.phase_after(i + 1);
                        }
                    },
                    TableEvent::Succeeded { .. } => {
                        let region = self.plan[i];
                        let mut mapped: Vec<MapRegion> = Vec::new();
                        core::mem::swap(&mut self.mapped, &mut mapped);
                        mapped.push(region);
                        core::mem::swap(&mut self.mapped, &mut mapped);
                        self.phase = self.phase_after(i + 1);
                    },
                }
            },
            Phase::Installing => {
                match event {
                    TableEvent::Begin => {},
                    TableEvent::Failed(e) => {
                        self.phase = Phase::Failed(e);
                    },
                    TableEvent::Succeeded { .. } => {
                        self.phase = Phase::Flushing;
                    },
                }
            },
            Phase::Flushing => {
                match event {
                    TableEvent::Begin => {},
                    TableEvent::Failed(e) => {
                        self.phase = Phase::Failed(e);
                    },
                    TableEvent::Succeeded { .. } => {
                        self.phase = Phase::Fencing;
                    },
                }
            },
            Phase::Fencing => {
                match event {
                    TableEvent::Begin => {},
                    TableEvent::Failed(e) => {
                        self.phase = Phase::Failed(e);
                    },
                    TableEvent::Succeeded { .. } => {
                        self.phase = Phase::Ready;
                    },
                }
            },
        }
        self.pending()
    }

    /// Whether one of the accepted mappings already serves `window`: covers
    /// its whole virtual range, translates it as `window` would, and has its
    /// attributes.
    pub fn serves(&self, window: &MapRegion) -> (r: bool)
        ensures
            r == exists|i: int|
                0 <= i < self@.mapped.len() && (#[trigger] self@.mapped[i]).serves(*window),
    {
        proof {
            use_type_invariant(self);
        }
        let mut i: usize = 0;
        while i < self.mapped.len()
            invariant
                i <= self.mapped.len(),
                self@.wf(),
                self@.mapped == self.mapped@,
                forall|k: int| 0 <= k < i ==> !(#[trigger] self.mapped@[k]).serves(*window),
            decreases self.mapped.len() - i,
        {
            let q = self.mapped[i];
            assert(q.fits());
            if q.config.vaddr <= window.config.vaddr && window.config.vaddr - q.config.vaddr
                <= q.size && window.size <= q.size - (window.config.vaddr - q.config.vaddr)
                && q.config.paddr + (window.config.vaddr - q.config.vaddr) == window.config.paddr
                && q.config.access == window.config.access && q.config.cache
                == window.config.cache {
                return true;
            }
            i += 1;
        }
        false
    }

    /// Puts a mapping on record that the table accepted after the build.
    pub(crate) fn record(&mut self, region: MapRegion)
        requires
            region.fits(),
        ensures
            final(self)@ == (TableState {
                mapped: old(self)@.mapped.push(region),
                ..old(self)@
            }),
            final(self)@.wf(),
    {
        proof {
            use_type_invariant(&*self);
        }
        let mut mapped: Vec<MapRegion> = Vec::new();
        core::mem::swap(&mut self.mapped, &mut mapped);
        mapped.push(region);
        core::mem::swap(&mut self.mapped, &mut mapped);
    }

    /// The physical address behind `vaddr`, going by the mappings that the
    /// table accepted: the first of them that covers `vaddr` decides.
    pub fn translate(&self, vaddr: usize) -> (r: Option<usize>)
        ensures
            r is Some <==> self@.translation(vaddr as int) is Some,
            r matches Some(p) ==> self@.translation(vaddr as int) == Some(p as int),
    {
        proof {
            use_type_invariant(self);
        }
        let mut i: usize = 0;
        assert(self.mapped@.subrange(0, self.mapped@.len() as int) == self.mapped@);
        while i < self.mapped.len()
            invariant
                i <= self.mapped.len(),
                self@.wf(),
                self@.mapped == self.mapped@,
                first_translation(self.mapped@, vaddr as int) == first_translation(
                    self.mapped@.subrange(i as int, self.mapped@.len() as int),
                    vaddr as int,
                ),
            decreases self.mapped.len() - i,
        {
            let region = self.mapped[i];
            proof {
                let rest = self.mapped@.subrange(i as int, self.mapped@.len() as int);
                assert(rest[0] == region);
                assert(rest.drop_first() == self.mapped@.subrange(
                    i as int + 1,
                    self.mapped@.len() as int,
                ));
                assert(region.fits());
            }
            if region.config.vaddr <= vaddr && vaddr - region.config.vaddr < region.size {
                return Some(region.config.paddr + (vaddr - region.config.vaddr));
            }
            i += 1;
        }
        None
    }
}

/// The events of a build on which nothing fails: the opening `Begin`, then
/// `count` reports of success, each naming `root`.
pub open spec fn smooth_events(root: usize, count: nat) -> Seq<TableEvent> {
    Seq::new(
        count + 1,
        |i: int|
            if i == 0 {
                TableEvent::Begin
            } else {
                TableEvent::Succeeded { root }
            },
    )
}

/// The number of actions that a build hands out before it reports the end.
pub open spec fn actions_of(s: TableState) -> nat {
    if s.activate {
        (s.plan.len() + 4) as nat
    } else {
        (s.plan.len() + 1) as nat
    }
}

/// While nothing fails, the requests of the plan are handed out in order:
/// after the creation and `done` further successes the first `done` of them
/// are recorded as mapped and the next one is pending.
pub proof fn lemma_smooth_prefix(s: TableState, root: usize, done: nat)
    requires
        s.fresh(),
        s.wf(),
        done <= s.plan.len(),
    ensures
        s.run(smooth_events(root, done + 1)) == (TableState {
            root,
            mapped: s.plan.take(done as int),
            phase: s.phase_after(done as int),
            ..s
        }),
    decreases done,
{
    let events = smooth_events(root, done + 1);
    assert(events.drop_last() == smooth_events(root, done));
    assert(events.last() == TableEvent::Succeeded { root });
    assert(s.run(events) == s.run(smooth_events(root, done)).next(events.last()));
    if done == 0 {
        lemma_begin(s, root);
        assert(s.plan.take(0) == Seq::<MapRegion>::empty());
    } else {
        lemma_smooth_prefix(s, root, (done - 1) as nat);
        let before = s.run(smooth_events(root, done));
        assert(before.phase == Phase::Mapping((done - 1) as usize));
        assert(s.plan.take(done - 1).push(s.plan[done - 1]) == s.plan.take(done as int));
    }
}

/// The first event of a build asks for the root table.
proof fn lemma_begin(s: TableState, root: usize)
    requires
        s.fresh(),
    ensures
        s.run(smooth_events(root, 0)) == (TableState { phase: Phase::Creating, ..s }),
{
    let first = smooth_events(root, 0);
    assert(first.drop_last() == Seq::<TableEvent>::empty());
    assert(s.run(first.drop_last()) == s);
    assert(first.last() == TableEvent::Begin);
    assert(s.run(first) == s.next(TableEvent::Begin));
}

/// A build on which nothing fails ends with every request of the plan
/// mapped, in the plan's order, and with the root that was reported.
pub proof fn lemma_smooth_build_completes(s: TableState, root: usize)
    requires
        s.fresh(),
        s.wf(),
    ensures
        s.run(smooth_events(root, actions_of(s))) == (TableState {
            root,
            mapped: s.plan,
            phase: Phase::Ready,
            ..s
        }),
        s.run(smooth_events(root, actions_of(s))).pending() == (TableAction::Finished { root }),
{
    let n = s.plan.len();
    lemma_smooth_prefix(s, root, n);
    assert(s.plan.take(n as int) == s.plan);
    if s.activate {
        let e1 = smooth_events(root, n + 1);
        let e2 = smooth_events(root, n + 2);
        let e3 = smooth_events(root, n + 3);
        let e4 = smooth_events(root, n + 4);
        assert(e2.drop_last() == e1);
        assert(e3.drop_last() == e2);
        assert(e4.drop_last() == e3);
        assert(e2.last() == TableEvent::Succeeded { root });
        assert(e3.last() == TableEvent::Succeeded { root });
        assert(e4.last() == TableEvent::Succeeded { root });
        assert(s.run(e1).phase == Phase::Installing);
        assert(s.run(e2) == s.run(e1).next(e2.last()));
        assert(s.run(e2).phase == Phase::Flushing);
        assert(s.run(e3) == s.run(e2).next(e3.last()));
        assert(s.run(e3).phase == Phase::Fencing);
        assert(s.run(e4) == s.run(e3).next(e4.last()));
    }
}

/// The actions of a build on which nothing fails, one by one: the creation
/// of the root, each request of the plan in order, then, where the table is
/// to become the active one, the switch, the flush and the fence.
pub proof fn lemma_smooth_actions(s: TableState, root: usize, k: nat)
    requires
        s.fresh(),
        s.wf(),
        k < actions_of(s),
    ensures
        s.run(smooth_events(root, k)).pending() == (if k == 0 {
            TableAction::CreateEmpty(s.frames)
        } else if k <= s.plan.len() {
            TableAction::MapRegion(s.plan[k - 1])
        } else if k == s.plan.len() + 1 {
            TableAction::Install { root }
        } else if k == s.plan.len() + 2 {
            TableAction::FlushAll
        } else {
            TableAction::Fence
        }),
{
    let n = s.plan.len();
    if k == 0 {
        lemma_begin(s, root);
    } else if k <= n {
        lemma_smooth_prefix(s, root, (k - 1) as nat);
    } else {
        lemma_smooth_prefix(s, root, n);
        let e1 = smooth_events(root, n + 1);
        let e2 = smooth_events(root, n + 2);
        let e3 = smooth_events(root, n + 3);
        assert(e2.drop_last() == e1);
        assert(e3.drop_last() == e2);
        assert(e2.last() == TableEvent::Succeeded { root });
        assert(e3.last() == TableEvent::Succeeded { root });
        assert(s.run(e1).phase == Phase::Installing);
        assert(s.run(e2) == s.run(e1).next(e2.last()));
        assert(s.run(e2).phase == Phase::Flushing);
        assert(s.run(e3) == s.run(e2).next(e3.last()));
    }
}

/// A build that has failed stays failed, and one that is complete stays
/// complete, whatever is reported afterwards.
pub proof fn lemma_end_is_final(s: TableState, events: Seq<TableEvent>)
    requires
        s.phase is Failed || s.phase is Ready,
    ensures
        s.run(events) == s,
    decreases events.len(),
{
    if events.len() > 0 {
        lemma_end_is_final(s, events.drop_last());
    }
}

/// Where the table refuses a request that the build depends on, the build
/// stops with the table's error, and what was mapped before stays on record.
pub proof fn lemma_refusal_stops_build(s: TableState, root: usize, done: nat, e: PagingError)
    requires
        s.fresh(),
        s.wf(),
        done < s.plan.len(),
        s.plan[done as int].required,
    ensures
        s.run(smooth_events(root, done + 1).push(TableEvent::Failed(e))) == (TableState {
            root,
            mapped: s.plan.take(done as int),
            phase: Phase::Failed(e),
            ..s
        }),
{
    lemma_smooth_prefix(s, root, done);
    let events = smooth_events(root, done + 1).push(TableEvent::Failed(e));
    assert(events.drop_last() == smooth_events(root, done + 1));
    assert(events.last() == TableEvent::Failed(e));
    assert(s.run(events) == s.run(smooth_events(root, done + 1)).next(events.last()));
}

} // verus!
