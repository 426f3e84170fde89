use vstd::prelude::*;

verus! {

/// A fatal condition that ended the loop.
#[derive(Clone, Copy, Debug, PartialEq, Eq)]
pub enum Fault {
    /// Rebuilding the surface resources failed for a reason other than size.
    Rebuild,
    /// Acquiring a slot failed for a reason other than staleness.
    Acquire,
    /// Waiting on a completion token failed (device lost).
    Device,
    /// Submitting work to the queue failed.
    Submit,
    /// Presenting failed for a reason other than staleness.
    Present,
    /// The surface handed out a slot index outside its slot set.
    BadSlot,
    /// An outcome arrived that does not answer the action last requested.
    Unexpected,
}

/// Where the scheduler stands: what it waits for next.
#[derive(Clone, Copy, Debug, PartialEq, Eq)]
pub enum Phase {
    /// Between iterations: waits for the next tick.
    Idle,
    /// Asked for the surface resources to be rebuilt.
    Rebuilding,
    /// Asked for the next slot.
    Acquiring,
    /// Waits for the previous work on `slot` to complete.
    WaitingPriorWork { slot: usize },
    /// Asked for new work on `slot` to be submitted.
    Submitting { slot: usize },
    /// Asked for `slot` to be presented.
    Presenting { slot: usize },
    /// Stopping: waits for the outstanding token of `slot`.
    Draining { slot: usize },
    /// The loop is over; `fault` tells why, `None` for a requested stop.
    Done { fault: Option<Fault> },
}

/// An outcome reported to the scheduler by the loop that drives it.
#[derive(Clone, Copy, Debug, PartialEq, Eq)]
pub enum Event {
    /// A new iteration of the loop begins.
    Tick,
    /// The surface resources were rebuilt.
    RebuildDone,
    /// The requested size cannot be built right now (a zero-area window).
    RebuildInvalidSize,
    /// The rebuild failed for good.
    RebuildFailed,
    /// A slot was acquired; `suboptimal` if it works but the surface should be rebuilt.
    Acquired { slot: usize, suboptimal: bool },
    /// The surface is out of date: no slot was acquired.
    AcquireOutOfDate,
    /// Acquiring failed for good.
    AcquireFailed,
    /// The completion token waited on has signaled.
    WaitDone,
    /// Waiting on a completion token failed.
    WaitFailed,
    /// The work was submitted and a new completion token stands for it.
    Submitted,
    /// Submitting failed.
    SubmitFailed,
    /// The slot was handed over for presentation.
    Presented,
    /// Presenting found the surface out of date.
    PresentOutOfDate,
    /// Presenting failed for good.
    PresentFailed,
}

/// What the scheduler asks its driver to do next.
#[derive(Clone, Copy, Debug, PartialEq, Eq)]
pub enum Action {
    /// Rebuild the surface resources at the current window size.
    Rebuild,
    /// Acquire the next slot.
    Acquire,
    /// Block until the completion token of `slot` signals.
    Wait { slot: usize },
    /// Submit the work of `slot`, ordered after the image-ready handle and,
    /// where `after` names a slot, after that slot's completion token.
    Submit { slot: usize, after: Option<usize> },
    /// Present `slot`.
    Present { slot: usize },
    /// The iteration is over; send the next `Tick` when the loop comes round.
    EndTick,
    /// Stopped on request, with every completion token drained.
    Finish,
    /// Stopped on a fatal condition.
    Fail(Fault),
}

/// The mathematical state of a `FrameScheduler`.
pub struct SchedulerView {
    pub phase: Phase,
    /// For each slot, whether a completion token is outstanding.
    pub pending: Seq<bool>,
    /// The slot submitted to in the latest iteration that submitted.
    pub prev_slot: Option<usize>,
    /// The surface must be rebuilt before the next acquire.
    pub invalidated: bool,
    /// A stop was requested.
    pub stop_requested: bool,
}

/// The lowest index below `n` whose slot holds a token.
pub open spec fn lowest_pending(s: Seq<bool>, n: int) -> Option<int>
    decreases n,
{
    if n <= 0 {
        None
    } else {
        match lowest_pending(s, n - 1) {
            Some(i) => Some(i),
            None => if s[n - 1] {
                Some(n - 1)
            } else {
                None
            },
        }
    }
}

/// How many slots hold a token.
pub open spec fn count_pending(s: Seq<bool>) -> nat
    decreases s.len(),
{
    if s.len() == 0 {
        0
    } else {
        count_pending(s.drop_last()) + if s.last() {
            1nat
        } else {
            0nat
        }
    }
}

pub open spec fn slot_in_range(v: SchedulerView, slot: usize) -> bool {
    slot < v.pending.len()
}

pub open spec fn wf(v: SchedulerView) -> bool {
    &&& v.pending.len() <= usize::MAX
    &&& match v.prev_slot {
        Some(p) => slot_in_range(v, p),
        None => true,
    }
    &&& match v.phase {
        Phase::WaitingPriorWork { slot } => slot_in_range(v, slot) && v.pending[slot as int],
        Phase::Submitting { slot } => slot_in_range(v, slot) && !v.pending[slot as int],
        Phase::Presenting { slot } => slot_in_range(v, slot) && v.pending[slot as int],
        Phase::Draining { slot } => slot_in_range(v, slot) && v.pending[slot as int]
            && v.stop_requested,
        _ => true,
    }
}

pub open spec fn initial(slot_count: nat) -> SchedulerView {
    SchedulerView {
        phase: Phase::Idle,
        pending: Seq::new(slot_count, |i: int| false),
        prev_slot: None,
        invalidated: false,
        stop_requested: false,
    }
}

pub open spec fn with_phase(v: SchedulerView, phase: Phase) -> SchedulerView {
    SchedulerView { phase, ..v }
}

pub open spec fn fail(v: SchedulerView, f: Fault) -> (SchedulerView, Action) {
    (with_phase(v, Phase::Done { fault: Some(f) }), Action::Fail(f))
}

/// The completion token that new work on a slot is ordered after: the one
/// of the slot submitted to last, while it is outstanding.
pub open spec fn prior_of(v: SchedulerView) -> Option<usize> {
    match v.prev_slot {
        Some(p) => if v.pending[p as int] {
            Some(p)
        } else {
            None
        },
        None => None,
    }
}

pub open spec fn submit_step(v: SchedulerView, slot: usize) -> (SchedulerView, Action) {
    (with_phase(v, Phase::Submitting { slot }), Action::Submit { slot, after: prior_of(v) })
}

/// While stopping: wait on the lowest outstanding token, or finish.
pub open spec fn drain_step(v: SchedulerView) -> (SchedulerView, Action) {
    match lowest_pending(v.pending, v.pending.len() as int) {
        Some(i) => (with_phase(v, Phase::Draining { slot: i as usize }), Action::Wait { slot: i as usize }),
        None => (with_phase(v, Phase::Done { fault: None }), Action::Finish),
    }
}

/// The start of an iteration: stop, rebuild, or acquire.
pub open spec fn begin_tick(v: SchedulerView) -> (SchedulerView, Action) {
    if v.stop_requested {
        drain_step(v)
    } else if v.invalidated {
        (with_phase(v, Phase::Rebuilding), Action::Rebuild)
    } else {
        (with_phase(v, Phase::Acquiring), Action::Acquire)
    }
}

pub open spec fn done_action(fault: Option<Fault>) -> Action {
    match fault {
        Some(f) => Action::Fail(f),
        None => Action::Finish,
    }
}

/// The transition taken on event `e` in state `v`: the next state and action.
pub open spec fn next(v: SchedulerView, e: Event) -> (SchedulerView, Action) {
    match v.phase {
        Phase::Done { fault } => (v, done_action(fault)),
        Phase::Idle => match e {
            Event::Tick => begin_tick(v),
            _ => fail(v, Fault::Unexpected),
        },
        Phase::Rebuilding => match e {
            Event::RebuildDone => (
                SchedulerView { phase: Phase::Acquiring, invalidated: false, ..v },
                Action::Acquire,
            ),
            Event::RebuildInvalidSize => (with_phase(v, Phase::Idle), Action::EndTick),
            Event::RebuildFailed => fail(v, Fault::Rebuild),
            _ => fail(v, Fault::Unexpected),
        },
        Phase::Acquiring => match e {
            Event::Acquired { slot, suboptimal } => if slot >= v.pending.len() {
                fail(v, Fault::BadSlot)
            } else {
                let v1 = SchedulerView { invalidated: v.invalidated || suboptimal, ..v };
                if v.pending[slot as int] {
                    (with_phase(v1, Phase::WaitingPriorWork { slot }), Action::Wait { slot })
                } else {
                    submit_step(v1, slot)
                }
            },
            Event::AcquireOutOfDate => (
                SchedulerView { phase: Phase::Idle, invalidated: true, ..v },
                Action::EndTick,
            ),
            Event::AcquireFailed => fail(v, Fault::Acquire),
            _ => fail(v, Fault::Unexpected),
        },
        Phase::WaitingPriorWork { slot } => match e {
            Event::WaitDone => submit_step(
                SchedulerView { pending: v.pending.update(slot as int, false), ..v },
                slot,
            ),
            Event::WaitFailed => fail(v, Fault::Device),
            _ => fail(v, Fault::Unexpected),
        },
        Phase::Submitting { slot } => match e {
            Event::Submitted => (
                SchedulerView {
                    phase: Phase::Presenting { slot },
                    pending: v.pending.update(slot as int, true),
                    prev_slot: Some(slot),
                    ..v
                },
                Action::Present { slot },
            ),
            Event::SubmitFailed => fail(v, Fault::Submit),
            _ => fail(v, Fault::Unexpected),
        },
        Phase::Presenting { slot } => match e {
            Event::Presented => (with_phase(v, Phase::Idle), Action::EndTick),
            Event::PresentOutOfDate => (
                SchedulerView { phase: Phase::Idle, invalidated: true, ..v },
                Action::EndTick,
            ),
            Event::PresentFailed => fail(v, Fault::Present),
            _ => fail(v, Fault::Unexpected),
        },
        Phase::Draining { slot } => match e {
            Event::WaitDone => drain_step(
                SchedulerView { pending: v.pending.update(slot as int, false), ..v },
            ),
            Event::WaitFailed => fail(v, Fault::Device),
            _ => fail(v, Fault::Unexpected),
        },
    }
}

pub open spec fn notify_resize_spec(v: SchedulerView) -> SchedulerView {
    SchedulerView { invalidated: true, ..v }
}

pub open spec fn request_stop_spec(v: SchedulerView) -> SchedulerView {
    SchedulerView { stop_requested: true, ..v }
}

pub proof fn lemma_lowest_pending(s: Seq<bool>, n: int)
    requires
        0 <= n <= s.len(),
    ensures
        match lowest_pending(s, n) {
            Some(i) => 0 <= i < n && s[i] && forall|k: int| 0 <= k < i ==> !s[k],
            None => forall|k: int| 0 <= k < n ==> !s[k],
        },
    decreases n,
{
    if n > 0 {
        lemma_lowest_pending(s, n - 1);
    }
}

pub proof fn lemma_next_wf(v: SchedulerView, e: Event)
    requires
        wf(v),
    ensures
        wf(next(v, e).0),
        next(v, e).0.pending.len() == v.pending.len(),
{
    lemma_lowest_pending(v.pending, v.pending.len() as int);
    match v.phase {
        Phase::Draining { slot } => {
            let p = v.pending.update(slot as int, false);
            lemma_lowest_pending(p, p.len() as int);
        },
        _ => {},
    }
}

/// The frame scheduler: decides, from the outcomes it is told of, when to
/// rebuild the surface, which slot to wait on, what to submit and present,
/// and when the loop is over.
pub struct FrameScheduler {
    phase: Phase,
    pending: Vec<bool>,
    prev_slot: Option<usize>,
    invalidated: bool,
    stop_requested: bool,
}

impl View for FrameScheduler {
    type V = SchedulerView;

    closed spec fn view(&self) -> SchedulerView {
        SchedulerView {
            phase: self.phase,
            pending: self.pending@,
            prev_slot: self.prev_slot,
            invalidated: self.invalidated,
            stop_requested: self.stop_requested,
        }
    }
}

impl FrameScheduler {
    pub open spec fn wf(&self) -> bool {
        wf(self@)
    }

    /// A scheduler for a surface of `slot_count` slots, none of them in use,
    /// waiting for its first tick.
    pub fn new(slot_count: usize) -> (r: FrameScheduler)
        ensures
            r@ == initial(slot_count as nat),
            r.wf(),
    {
        let mut pending: Vec<bool> = Vec::new();
        let mut i: usize = 0;
        while i < slot_count
            invariant
                i <= slot_count,
                pending@ == Seq::new(i as nat, |k: int| false),
            decreases slot_count - i,
        {
            pending.push(false);
            i = i + 1;
            assert(pending@ =~= Seq::new(i as nat, |k: int| false));
        }
        FrameScheduler {
            phase: Phase::Idle,
            pending,
            prev_slot: None,
            invalidated: false,
            stop_requested: false,
        }
    }
    /// Waits on the lowest outstanding token, or finishes when none is left.
    fn drain(&mut self) -> (a: Action)
        requires
            old(self)@.pending.len() <= usize::MAX,
        ensures
            (final(self)@, a) == drain_step(old(self)@),
    {
        proof {
            lemma_lowest_pending(self.pending@, self.pending@.len() as int);
        }
        let mut i: usize = 0;
        while i < self.pending.len()
            invariant
                i <= self.pending@.len(),
                self@ == old(self)@,
                lowest_pending(self.pending@, i as int) == None::<int>,
            decreases self.pending@.len() - i,
        {
            if self.pending[i] {
                assert(lowest_pending(self.pending@, i + 1) == Some(i as int));
                assert(lowest_pending(self.pending@, self.pending@.len() as int) == Some(i as int)) by {
                    lemma_lowest_pending(self.pending@, self.pending@.len() as int);
                    lemma_lowest_pending(self.pending@, i + 1);
                }
                self.phase = Phase::Draining { slot: i };
                return Action::Wait { slot: i };
            }
            i = i + 1;
        }
        self.phase = Phase::Done { fault: None };
        Action::Finish
    }

    fn fail(&mut self, f: Fault) -> (a: Action)
        ensures
            (final(self)@, a) == fail(old(self)@, f),
    {
        self.phase = Phase::Done { fault: Some(f) };
        Action::Fail(f)
    }

    fn submit(&mut self, slot: usize) -> (a: Action)
        requires
            slot_in_range(old(self)@, slot),
            match old(self)@.prev_slot {
                Some(p) => slot_in_range(old(self)@, p),
                None => true,
            },
        ensures
            (final(self)@, a) == submit_step(old(self)@, slot),
    {
        let after = match self.prev_slot {
            Some(p) => if self.pending[p] {
                Some(p)
            } else {
                None
            },
            None => None,
        };
        self.phase = Phase::Submitting { slot };
        Action::Submit { slot, after }
    }

    fn begin_tick(&mut self) -> (a: Action)
        requires
            old(self)@.pending.len() <= usize::MAX,
        ensures
            (final(self)@, a) == begin_tick(old(self)@),
    {
        if self.stop_requested {
            self.drain()
        } else if self.invalidated {
            self.phase = Phase::Rebuilding;
            Action::Rebuild
        } else {
            self.phase = Phase::Acquiring;
            Action::Acquire
        }
    }

    /// Takes in the outcome `e` of the last action (or a `Tick`), moves to
    /// the next state and returns the next action.
    pub fn step(&mut self, e: Event) -> (a: Action)
        requires
            old(self).wf(),
        ensures
            final(self).wf(),
            (final(self)@, a) == next(old(self)@, e),
    {
        proof {
            lemma_next_wf(self@, e);
        }
        match self.phase {
            Phase::Done { fault } => match fault {
                Some(f) => Action::Fail(f),
                None => Action::Finish,
            },
            Phase::Idle => match e {
                Event::Tick => self.begin_tick(),
                _ => self.fail(Fault::Unexpected),
            },
            Phase::Rebuilding => match e {
                Event::RebuildDone => {
                    self.phase = Phase::Acquiring;
                    self.invalidated = false;
                    Action::Acquire
                },
                Event::RebuildInvalidSize => {
                    self.phase = Phase::Idle;
                    Action::EndTick
                },
                Event::RebuildFailed => self.fail(Fault::Rebuild),
                _ => self.fail(Fault::Unexpected),
            },
            Phase::Acquiring => match e {
                Event::Acquired { slot, suboptimal } => {
                    if slot >= self.pending.len() {
                        self.fail(Fault::BadSlot)
                    } else {
                        self.invalidated = self.invalidated || suboptimal;
                        if self.pending[slot] {
                            self.phase = Phase::WaitingPriorWork { slot };
                            Action::Wait { slot }
                        } else {
                            self.submit(slot)
                        }
                    }
                },
                Event::AcquireOutOfDate => {
                    self.phase = Phase::Idle;
                    self.invalidated = true;
                    Action::EndTick
                },
                Event::AcquireFailed => self.fail(Fault::Acquire),
                _ => self.fail(Fault::Unexpected),
            },
            Phase::WaitingPriorWork { slot } => match e {
                Event::WaitDone => {
                    self.pending.set(slot, false);
                    self.submit(slot)
                },
                Event::WaitFailed => self.fail(Fault::Device),
                _ => self.fail(Fault::Unexpected),
            },
            Phase::Submitting { slot } => match e {
                Event::Submitted => {
                    self.pending.set(slot, true);
                    self.prev_slot = Some(slot);
                    self.phase = Phase::Presenting { slot };
                    Action::Present { slot }
                },
                Event::SubmitFailed => self.fail(Fault::Submit),
                _ => self.fail(Fault::Unexpected),
            },
            Phase::Presenting { slot } => match e {
                Event::Presented => {
                    self.phase = Phase::Idle;
                    Action::EndTick
                },
                Event::PresentOutOfDate => {
                    self.phase = Phase::Idle;
                    self.invalidated = true;
                    Action::EndTick
                },
                Event::PresentFailed => self.fail(Fault::Present),
                _ => self.fail(Fault::Unexpected),
            },
            Phase::Draining { slot } => match e {
                Event::WaitDone => {
                    self.pending.set(slot, false);
                    self.drain()
                },
                Event::WaitFailed => self.fail(Fault::Device),
                _ => self.fail(Fault::Unexpected),
            },
        }
    }

    /// Records a resize of the window: the surface is rebuilt at the start
    /// of the next iteration.
    pub fn notify_resize(&mut self)
        requires
            old(self).wf(),
        ensures
            final(self).wf(),
            final(self)@ == notify_resize_spec(old(self)@),
    {
        self.invalidated = true;
    }

    /// Records a stop request: at the start of the next iteration the
    /// scheduler drains the outstanding tokens and finishes.
    pub fn request_stop(&mut self)
        requires
            old(self).wf(),
        ensures
            final(self).wf(),
            final(self)@ == request_stop_spec(old(self)@),
    {
        self.stop_requested = true;
    }
    /// The current phase.
    pub fn phase(&self) -> (r: Phase)
        ensures
            r == self@.phase,
    {
        self.phase
    }

    /// The number of slots of the surface.
    pub fn slot_count(&self) -> (r: usize)
        ensures
            r == self@.pending.len(),
    {
        self.pending.len()
    }

    /// Whether `slot` holds an outstanding completion token.
    pub fn has_token(&self, slot: usize) -> (r: bool)
        ensures
            r == (slot < self@.pending.len() && self@.pending[slot as int]),
    {
        slot < self.pending.len() && self.pending[slot]
    }

    /// Whether the surface is to be rebuilt at the next iteration.
    pub fn is_invalidated(&self) -> (r: bool)
        ensures
            r == self@.invalidated,
    {
        self.invalidated
    }

    /// Whether a stop was requested.
    pub fn is_stop_requested(&self) -> (r: bool)
        ensures
            r == self@.stop_requested,
    {
        self.stop_requested
    }
}

} // verus!
