use frame_loop::scheduler::{Action, Event, Fault, FrameScheduler, Phase};

/// Runs one ordinary iteration on a scheduler in its idle phase: acquire
/// `slot`, wait if needed, submit, present. Returns the actions asked for.
fn run_iteration(s: &mut FrameScheduler, slot: usize) -> Vec<Action> {
    let mut actions = Vec::new();
    let mut a = s.step(Event::Tick);
    actions.push(a);
    if a == Action::Rebuild {
        a = s.step(Event::RebuildDone);
        actions.push(a);
    }
    assert_eq!(a, Action::Acquire);
    a = s.step(Event::Acquired { slot, suboptimal: false });
    actions.push(a);
    if a == (Action::Wait { slot }) {
        a = s.step(Event::WaitDone);
        actions.push(a);
    }
    assert!(matches!(a, Action::Submit { .. }));
    a = s.step(Event::Submitted);
    actions.push(a);
    a = s.step(Event::Presented);
    actions.push(a);
    assert_eq!(a, Action::EndTick);
    actions
}

#[test]
fn new_scheduler_is_idle_with_no_tokens() {
    let s = FrameScheduler::new(3);
    assert_eq!(s.phase(), Phase::Idle);
    assert_eq!(s.slot_count(), 3);
    for k in 0..4 {
        assert!(!s.has_token(k));
    }
    assert!(!s.is_invalidated());
    assert!(!s.is_stop_requested());
}

#[test]
fn first_iteration_submits_and_presents() {
    let mut s = FrameScheduler::new(3);
    assert_eq!(s.step(Event::Tick), Action::Acquire);
    assert_eq!(s.step(Event::Acquired { slot: 1, suboptimal: false }), Action::Submit { slot: 1, after: None });
    assert_eq!(s.step(Event::Submitted), Action::Present { slot: 1 });
    assert!(s.has_token(1));
    assert_eq!(s.step(Event::Presented), Action::EndTick);
    assert_eq!(s.phase(), Phase::Idle);
}

#[test]
fn next_submission_is_ordered_after_previous_slot() {
    let mut s = FrameScheduler::new(3);
    run_iteration(&mut s, 0);
    s.step(Event::Tick);
    assert_eq!(s.step(Event::Acquired { slot: 1, suboptimal: false }), Action::Submit { slot: 1, after: Some(0) });
}

#[test]
fn reused_slot_waits_for_its_token_first() {
    let mut s = FrameScheduler::new(2);
    run_iteration(&mut s, 0);
    run_iteration(&mut s, 1);
    s.step(Event::Tick);
    assert_eq!(s.step(Event::Acquired { slot: 0, suboptimal: false }), Action::Wait { slot: 0 });
    assert_eq!(s.phase(), Phase::WaitingPriorWork { slot: 0 });
    assert_eq!(s.step(Event::WaitDone), Action::Submit { slot: 0, after: Some(1) });
    assert!(!s.has_token(0));
    assert_eq!(s.step(Event::Submitted), Action::Present { slot: 0 });
    assert!(s.has_token(0));
}

#[test]
fn same_slot_twice_is_not_ordered_after_itself() {
    let mut s = FrameScheduler::new(1);
    run_iteration(&mut s, 0);
    s.step(Event::Tick);
    assert_eq!(s.step(Event::Acquired { slot: 0, suboptimal: false }), Action::Wait { slot: 0 });
    assert_eq!(s.step(Event::WaitDone), Action::Submit { slot: 0, after: None });
}

#[test]
fn slot_mutual_exclusion_over_many_iterations() {
    let mut s = FrameScheduler::new(3);
    let order = [0usize, 1, 2, 0, 2, 1, 1, 0, 2, 2];
    for &slot in order.iter() {
        let had_token = s.has_token(slot);
        let actions = run_iteration(&mut s, slot);
        let waited = actions.contains(&Action::Wait { slot });
        assert_eq!(waited, had_token);
        let submit_pos = actions.iter().position(|a| matches!(a, Action::Submit { .. })).unwrap();
        if waited {
            let wait_pos = actions.iter().position(|a| *a == Action::Wait { slot }).unwrap();
            assert!(wait_pos < submit_pos);
        }
        assert!(s.has_token(slot));
    }
}

#[test]
fn resize_leads_to_rebuild_at_next_iteration() {
    let mut s = FrameScheduler::new(3);
    run_iteration(&mut s, 0);
    s.notify_resize();
    assert!(s.is_invalidated());
    assert_eq!(s.step(Event::Tick), Action::Rebuild);
    assert_eq!(s.phase(), Phase::Rebuilding);
    assert_eq!(s.step(Event::RebuildDone), Action::Acquire);
    assert!(!s.is_invalidated());
}

#[test]
fn resize_during_iteration_is_kept_until_the_next() {
    let mut s = FrameScheduler::new(3);
    s.step(Event::Tick);
    s.notify_resize();
    assert_eq!(s.step(Event::Acquired { slot: 0, suboptimal: false }), Action::Submit { slot: 0, after: None });
    s.step(Event::Submitted);
    assert_eq!(s.step(Event::Presented), Action::EndTick);
    assert_eq!(s.step(Event::Tick), Action::Rebuild);
}

#[test]
fn invalid_size_retries_rebuild_next_tick() {
    let mut s = FrameScheduler::new(3);
    s.notify_resize();
    assert_eq!(s.step(Event::Tick), Action::Rebuild);
    assert_eq!(s.step(Event::RebuildInvalidSize), Action::EndTick);
    assert!(s.is_invalidated());
    assert_eq!(s.step(Event::Tick), Action::Rebuild);
    assert_eq!(s.step(Event::RebuildInvalidSize), Action::EndTick);
    assert_eq!(s.step(Event::Tick), Action::Rebuild);
    assert_eq!(s.step(Event::RebuildDone), Action::Acquire);
}

#[test]
fn resize_and_stale_acquire_collapse_to_one_rebuild() {
    let mut s = FrameScheduler::new(3);
    assert_eq!(s.step(Event::Tick), Action::Acquire);
    s.notify_resize();
    assert_eq!(s.step(Event::AcquireOutOfDate), Action::EndTick);
    s.notify_resize();
    let mut rebuilds = 0;
    let mut a = s.step(Event::Tick);
    loop {
        match a {
            Action::Rebuild => {
                rebuilds += 1;
                a = s.step(Event::RebuildDone);
            }
            Action::Acquire => break,
            other => panic!("unexpected action {:?}", other),
        }
    }
    assert_eq!(rebuilds, 1);
}

#[test]
fn acquire_out_of_date_skips_submit_and_present() {
    let mut s = FrameScheduler::new(3);
    for i in 1..5usize {
        run_iteration(&mut s, i % 3);
    }
    // The fifth iteration.
    assert_eq!(s.step(Event::Tick), Action::Acquire);
    assert_eq!(s.step(Event::AcquireOutOfDate), Action::EndTick);
    assert_eq!(s.phase(), Phase::Idle);
    assert!(s.is_invalidated());
    // The sixth iteration starts by rebuilding.
    assert_eq!(s.step(Event::Tick), Action::Rebuild);
    assert_eq!(s.phase(), Phase::Rebuilding);
}

#[test]
fn suboptimal_acquire_completes_and_rebuilds_next() {
    let mut s = FrameScheduler::new(3);
    assert_eq!(s.step(Event::Tick), Action::Acquire);
    assert_eq!(s.step(Event::Acquired { slot: 2, suboptimal: true }), Action::Submit { slot: 2, after: None });
    assert_eq!(s.step(Event::Submitted), Action::Present { slot: 2 });
    assert_eq!(s.step(Event::Presented), Action::EndTick);
    assert!(s.is_invalidated());
    assert_eq!(s.step(Event::Tick), Action::Rebuild);
}

#[test]
fn present_out_of_date_flags_rebuild() {
    let mut s = FrameScheduler::new(3);
    s.step(Event::Tick);
    s.step(Event::Acquired { slot: 0, suboptimal: false });
    s.step(Event::Submitted);
    assert_eq!(s.step(Event::PresentOutOfDate), Action::EndTick);
    assert!(s.is_invalidated());
    assert!(s.has_token(0));
    assert_eq!(s.step(Event::Tick), Action::Rebuild);
}

#[test]
fn stop_after_one_submission_drains_that_slot_only() {
    let mut s = FrameScheduler::new(3);
    s.step(Event::Tick);
    s.step(Event::Acquired { slot: 0, suboptimal: false });
    s.step(Event::Submitted);
    s.request_stop();
    assert_eq!(s.step(Event::Presented), Action::EndTick);
    assert!(!s.has_token(1));
    assert!(!s.has_token(2));
    assert_eq!(s.step(Event::Tick), Action::Wait { slot: 0 });
    assert_eq!(s.phase(), Phase::Draining { slot: 0 });
    assert_eq!(s.step(Event::WaitDone), Action::Finish);
    assert_eq!(s.phase(), Phase::Done { fault: None });
    assert!(!s.has_token(0));
    assert!(!s.has_token(1));
    assert!(!s.has_token(2));
}

#[test]
fn stop_with_no_tokens_finishes_at_once() {
    let mut s = FrameScheduler::new(3);
    s.request_stop();
    assert_eq!(s.step(Event::Tick), Action::Finish);
    assert_eq!(s.phase(), Phase::Done { fault: None });
    assert_eq!(s.step(Event::Tick), Action::Finish);
}

#[test]
fn stop_with_every_slot_busy_waits_on_each() {
    let mut s = FrameScheduler::new(3);
    run_iteration(&mut s, 2);
    run_iteration(&mut s, 0);
    run_iteration(&mut s, 1);
    s.request_stop();
    assert_eq!(s.step(Event::Tick), Action::Wait { slot: 0 });
    assert_eq!(s.step(Event::WaitDone), Action::Wait { slot: 1 });
    assert_eq!(s.step(Event::WaitDone), Action::Wait { slot: 2 });
    assert_eq!(s.step(Event::WaitDone), Action::Finish);
    for k in 0..3 {
        assert!(!s.has_token(k));
    }
}

#[test]
fn stop_is_taken_up_before_a_pending_rebuild() {
    let mut s = FrameScheduler::new(2);
    run_iteration(&mut s, 1);
    s.notify_resize();
    s.request_stop();
    assert_eq!(s.step(Event::Tick), Action::Wait { slot: 1 });
    assert_eq!(s.step(Event::WaitDone), Action::Finish);
}

#[test]
fn fatal_outcomes_end_the_loop() {
    let cases: Vec<(Vec<Event>, Fault)> = vec![
        (vec![Event::RebuildFailed], Fault::Rebuild),
        (vec![Event::AcquireFailed], Fault::Acquire),
        (vec![Event::Acquired { slot: 3, suboptimal: false }], Fault::BadSlot),
        (vec![Event::Acquired { slot: 0, suboptimal: false }, Event::SubmitFailed], Fault::Submit),
        (vec![Event::Acquired { slot: 0, suboptimal: false }, Event::Submitted, Event::PresentFailed], Fault::Present),
        (vec![Event::Presented], Fault::Unexpected),
    ];
    for (events, fault) in cases {
        let mut s = FrameScheduler::new(3);
        if events[0] == Event::RebuildFailed {
            s.notify_resize();
        }
        s.step(Event::Tick);
        let mut last = Action::EndTick;
        for e in events {
            last = s.step(e);
        }
        assert_eq!(last, Action::Fail(fault));
        assert_eq!(s.phase(), Phase::Done { fault: Some(fault) });
        assert_eq!(s.step(Event::Tick), Action::Fail(fault));
    }
}

#[test]
fn failed_wait_is_a_device_fault() {
    let mut s = FrameScheduler::new(1);
    run_iteration(&mut s, 0);
    s.step(Event::Tick);
    assert_eq!(s.step(Event::Acquired { slot: 0, suboptimal: false }), Action::Wait { slot: 0 });
    assert_eq!(s.step(Event::WaitFailed), Action::Fail(Fault::Device));

    let mut d = FrameScheduler::new(1);
    run_iteration(&mut d, 0);
    d.request_stop();
    assert_eq!(d.step(Event::Tick), Action::Wait { slot: 0 });
    assert_eq!(d.step(Event::WaitFailed), Action::Fail(Fault::Device));
}

#[test]
fn scheduler_with_no_slots_rejects_any_slot() {
    let mut s = FrameScheduler::new(0);
    assert_eq!(s.step(Event::Tick), Action::Acquire);
    assert_eq!(s.step(Event::Acquired { slot: 0, suboptimal: false }), Action::Fail(Fault::BadSlot));
}
