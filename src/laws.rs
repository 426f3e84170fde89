use vstd::prelude::*;
use crate::scheduler::{
    count_pending, drain_step, lemma_lowest_pending, lemma_next_wf, lowest_pending, next,
    notify_resize_spec, prior_of, slot_in_range, wf, Action, Event, Phase, SchedulerView,
};

verus! {

/// A submission is only ever made to a slot with no outstanding token, and
/// a slot only gains a token when that submission completes: no two
/// submissions are ever in flight for one slot.
pub proof fn law_slot_exclusion(v: SchedulerView, e: Event)
    requires
        wf(v),
    ensures
        wf(next(v, e).0),
        match next(v, e).1 {
            Action::Submit { slot, after } => {
                &&& slot_in_range(next(v, e).0, slot)
                &&& !next(v, e).0.pending[slot as int]
                &&& after != Some(slot)
            },
            _ => true,
        },
        forall|k: int|
            0 <= k < v.pending.len() && next(v, e).0.pending[k] && !v.pending[k] ==> {
                &&& v.phase == (Phase::Submitting { slot: k as usize })
                &&& e == Event::Submitted
            },
{
    lemma_next_wf(v, e);
}

/// After a resize notification the surface is marked for rebuilding; the
/// mark survives every step but a completed rebuild; no acquire is asked
/// for while it stands; and the next iteration starts with a rebuild,
/// unless a stop was requested.
pub proof fn law_resize_convergence(v: SchedulerView, e: Event)
    requires
        wf(v),
    ensures
        notify_resize_spec(v).invalidated,
        v.invalidated && !(v.phase == Phase::Rebuilding && e == Event::RebuildDone)
            ==> next(v, e).0.invalidated,
        next(v, e).1 == Action::Acquire ==> !next(v, e).0.invalidated,
        v.invalidated && v.phase == Phase::Idle && !v.stop_requested
            ==> next(v, Event::Tick).1 == Action::Rebuild,
{
}

/// A resize notification and a stale acquire in the same iteration leave
/// the same state as the stale acquire alone, and lead to a single rebuild:
/// the next iteration rebuilds once and then acquires.
pub proof fn law_rebuild_collapse(v: SchedulerView)
    requires
        wf(v),
        v.phase == Phase::Acquiring,
    ensures
        notify_resize_spec(notify_resize_spec(v)) == notify_resize_spec(v),
        next(notify_resize_spec(v), Event::AcquireOutOfDate).0 == next(
            v,
            Event::AcquireOutOfDate,
        ).0,
        ({
            let after = next(v, Event::AcquireOutOfDate).0;
            let tick = next(after, Event::Tick);
            !v.stop_requested ==> {
                &&& tick.1 == Action::Rebuild
                &&& next(tick.0, Event::RebuildDone).1 == Action::Acquire
            }
        }),
{
}

/// A slot's token is retired only by the completed wait on it, and new
/// work for a slot is submitted only once its previous token has signaled.
pub proof fn law_slot_ordering(v: SchedulerView, e: Event, k: usize)
    requires
        wf(v),
        slot_in_range(v, k),
    ensures
        v.pending[k as int] && !next(v, e).0.pending[k as int] ==> {
            &&& e == Event::WaitDone
            &&& (v.phase == (Phase::WaitingPriorWork { slot: k }) || v.phase == (
            Phase::Draining { slot: k }))
        },
        next(v, e).1 == (Action::Submit { slot: k, after: prior_of(next(v, e).0) }) ==> {
            ||| !v.pending[k as int]
            ||| (v.phase == (Phase::WaitingPriorWork { slot: k }) && e == Event::WaitDone)
        },
{
}

/// The scheduler is draining and waits on the token of `s`.
pub open spec fn waits_on(r: (SchedulerView, Action), s: usize) -> bool {
    r.0.phase == (Phase::Draining { slot: s }) && r.1 == (Action::Wait { slot: s })
}

/// The result of answering `n` waits in a row, starting from `r`.
pub open spec fn feed_waits(r: (SchedulerView, Action), n: nat) -> (SchedulerView, Action)
    decreases n,
{
    if n == 0 {
        r
    } else {
        next(feed_waits(r, (n - 1) as nat).0, Event::WaitDone)
    }
}

proof fn lemma_count_clear(s: Seq<bool>, j: int)
    requires
        0 <= j < s.len(),
        s[j],
    ensures
        count_pending(s.update(j, false)) + 1 == count_pending(s),
    decreases s.len(),
{
    let u = s.update(j, false);
    if j == s.len() - 1 {
        assert(u.drop_last() =~= s.drop_last());
    } else {
        assert(u.drop_last() =~= s.drop_last().update(j, false));
        lemma_count_clear(s.drop_last(), j);
    }
}

proof fn lemma_count_zero(s: Seq<bool>)
    ensures
        count_pending(s) == 0 <==> forall|k: int| 0 <= k < s.len() ==> !s[k],
    decreases s.len(),
{
    if s.len() > 0 {
        lemma_count_zero(s.drop_last());
        if count_pending(s) == 0 {
            assert forall|k: int| 0 <= k < s.len() implies !s[k] by {
                if k < s.len() - 1 {
                    assert(s[k] == s.drop_last()[k]);
                }
            }
        }
        if forall|k: int| 0 <= k < s.len() ==> !s[k] {
            assert forall|k: int| 0 <= k < s.drop_last().len() implies !s.drop_last()[k] by {
                assert(s[k] == s.drop_last()[k]);
            }
        }
    }
}

proof fn lemma_drain_step(t: SchedulerView)
    requires
        wf(t),
        t.stop_requested,
    ensures
        wf(drain_step(t).0),
        drain_step(t).0.pending == t.pending,
        count_pending(t.pending) > 0 ==> ({
            let r = drain_step(t);
            exists|s: usize| slot_in_range(t, s) && t.pending[s as int] && #[trigger] waits_on(r, s)
        }),
        count_pending(t.pending) == 0 ==> drain_step(t).0.phase == (Phase::Done { fault: None })
            && drain_step(t).1 == Action::Finish,
{
    lemma_lowest_pending(t.pending, t.pending.len() as int);
    lemma_count_zero(t.pending);
    match lowest_pending(t.pending, t.pending.len() as int) {
        Some(i) => {
            let s = i as usize;
            assert(waits_on(drain_step(t), s));
        },
        None => {},
    }
}

proof fn lemma_drain_progress(v: SchedulerView, m: nat)
    requires
        wf(v),
        v.phase == Phase::Idle,
        v.stop_requested,
        m <= count_pending(v.pending),
    ensures
        ({
            let r = feed_waits(next(v, Event::Tick), m);
            &&& wf(r.0)
            &&& r.0.stop_requested
            &&& r.0.pending.len() == v.pending.len()
            &&& count_pending(r.0.pending) + m == count_pending(v.pending)
            &&& forall|j: int| 0 <= j < v.pending.len() && r.0.pending[j] ==> v.pending[j]
            &&& count_pending(r.0.pending) > 0 ==> exists|s: usize|
                slot_in_range(v, s) && r.0.pending[s as int] && #[trigger] waits_on(r, s)
            &&& count_pending(r.0.pending) == 0 ==> r.0.phase == (Phase::Done { fault: None })
                && r.1 == Action::Finish
        }),
    decreases m,
{
    if m == 0 {
        lemma_drain_step(v);
    } else {
        lemma_drain_progress(v, (m - 1) as nat);
        let p = feed_waits(next(v, Event::Tick), (m - 1) as nat);
        let s = choose|s: usize| slot_in_range(v, s) && p.0.pending[s as int] && #[trigger] waits_on(p, s);
        let t = SchedulerView {
            phase: Phase::Idle,
            pending: p.0.pending.update(s as int, false),
            ..p.0
        };
        assert(drain_step(t) == next(p.0, Event::WaitDone));
        lemma_count_clear(p.0.pending, s as int);
        lemma_drain_step(t);
    }
}

/// The state and action after a stop request is taken up at a tick and
/// `n` waits are answered.
pub open spec fn drain_run(v: SchedulerView, n: nat) -> (SchedulerView, Action) {
    feed_waits(next(v, Event::Tick), n)
}

/// `r` waits on a token that is outstanding in `r` and was in `v`.
pub open spec fn waits_on_outstanding(v: SchedulerView, r: (SchedulerView, Action)) -> bool {
    exists|s: usize|
        slot_in_range(v, s) && v.pending[s as int] && r.0.pending[s as int] && #[trigger] waits_on(
            r,
            s,
        )
}

/// On a stop request with K tokens outstanding, the scheduler asks for
/// exactly K waits, each on an outstanding token, and finishes once the
/// K-th wait is answered, with no token left.
pub proof fn law_termination_drains(v: SchedulerView)
    requires
        wf(v),
        v.phase == Phase::Idle,
        v.stop_requested,
    ensures
        drain_run(v, count_pending(v.pending)).1 == Action::Finish,
        drain_run(v, count_pending(v.pending)).0.phase == (Phase::Done { fault: None }),
        forall|j: int|
            0 <= j < v.pending.len() ==> !#[trigger] drain_run(v, count_pending(v.pending)).0.pending[j],
        forall|m: nat|
            m < count_pending(v.pending) ==> #[trigger] waits_on_outstanding(v, drain_run(v, m)),
{
    let k = count_pending(v.pending);
    lemma_drain_progress(v, k);
    lemma_count_zero(drain_run(v, k).0.pending);
    assert forall|m: nat| m < k implies #[trigger] waits_on_outstanding(v, drain_run(v, m)) by {
        lemma_drain_progress(v, m);
        let r = drain_run(v, m);
        let s = choose|s: usize| slot_in_range(v, s) && r.0.pending[s as int] && #[trigger] waits_on(r, s);
        assert(v.pending[s as int]);
    }
}

} // verus!
