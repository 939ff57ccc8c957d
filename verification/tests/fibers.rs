use minirt::fibers::{Runtime, State, Thread, ThreadContext, DEFAULT_STACK_SIZE, MAX_THREADS};

#[test]
fn fresh_runtime_has_base_running_and_rest_free() {
    let rt = Runtime::new();
    assert_eq!(rt.threads.len(), MAX_THREADS);
    assert_eq!(rt.current, 0);
    assert_eq!(rt.threads[0].state, State::Running);
    for slot in rt.threads.iter().skip(1) {
        assert_eq!(slot.state, State::Available);
        assert_eq!(slot.stack.len(), DEFAULT_STACK_SIZE);
    }
}

#[test]
fn fresh_slot_context_is_zeroed() {
    let t = Thread::new();
    assert_eq!(t.ctx, ThreadContext::default());
    assert_eq!(t.ctx.rsp, 0);
    assert_eq!(t.state, State::Available);
}

#[test]
fn spawn_marks_first_free_slot_runnable() {
    let mut rt = Runtime::new();
    rt.spawn();
    assert_eq!(rt.threads[1].state, State::Ready);
    assert_eq!(rt.threads[1].ctx.rsp, (DEFAULT_STACK_SIZE - 32) as u64);
    rt.spawn();
    assert_eq!(rt.threads[2].state, State::Ready);
    assert_eq!(rt.threads[3].state, State::Available);
}

#[test]
fn yield_round_robins_over_runnable_slots() {
    let mut rt = Runtime::new();
    rt.spawn();
    rt.spawn();
    // the base slot hands over to slot 1, becoming runnable itself
    assert!(rt.t_yield());
    assert_eq!(rt.current, 1);
    assert_eq!(rt.threads[0].state, State::Ready);
    assert_eq!(rt.threads[1].state, State::Running);
    // from slot 1 the scan wraps to slot 2
    assert!(rt.t_yield());
    assert_eq!(rt.current, 2);
    assert_eq!(rt.threads[1].state, State::Ready);
    // then back around to the base slot
    assert!(rt.t_yield());
    assert_eq!(rt.current, 0);
}

#[test]
fn yield_reports_no_work_when_nothing_is_runnable() {
    let mut rt = Runtime::new();
    assert!(!rt.t_yield());
    assert_eq!(rt.current, 0);
    assert_eq!(rt.threads[0].state, State::Running);
}

#[test]
fn returning_fiber_frees_its_slot() {
    let mut rt = Runtime::new();
    rt.spawn();
    assert!(rt.t_yield());
    assert_eq!(rt.current, 1);
    // slot 1's task finishes: its slot is freed and the base resumes
    rt.t_return();
    assert_eq!(rt.threads[1].state, State::Available);
    assert_eq!(rt.current, 0);
    assert_eq!(rt.threads[0].state, State::Running);
    // the base slot never frees itself
    rt.t_return();
    assert_eq!(rt.threads[0].state, State::Running);
}
