use ebpf_trace::benchmark::{sequential_direct, sequential_with_kpc, Step};
use ebpf_trace::run::{Run, RunStatus};

#[test]
fn successful_run_records_each_timed_step() {
    let plan = sequential_direct(4);
    let len = plan.len();
    let mut run = Run::start(plan);
    let mut recorded = 0;
    let mut steps = 0;
    while let Some(_) = run.current() {
        if run.advance(true) {
            recorded += 1;
        }
        steps += 1;
    }
    assert_eq!(steps, len);
    assert!(run.status() == RunStatus::Completed);
    assert_eq!(recorded, 4);
    assert_eq!(run.samples(), 4);
}

#[test]
fn failed_direct_write_is_recorded_and_fails_the_benchmark() {
    let mut run = Run::start(sequential_direct(3));
    for _ in 0..4 {
        assert!(!matches!(run.current(), None));
        run.advance(true);
    }
    assert!(run.current() == Some(Step::WriteAt { offset: 4096, fill: 1, timed: true }));
    assert!(run.advance(false));
    assert!(run.status() == RunStatus::Failed);
    assert_eq!(run.samples(), 2);
    assert!(run.current().is_none());
    assert!(!run.advance(true));
    assert_eq!(run.samples(), 2);
}

#[test]
fn failed_append_is_not_recorded_and_exits() {
    let mut run = Run::start(sequential_with_kpc(2));
    for _ in 0..5 {
        run.advance(true);
    }
    assert!(run.current() == Some(Step::Append));
    assert!(!run.advance(false));
    assert!(run.status() == RunStatus::Exited);
    assert_eq!(run.samples(), 0);
}

#[test]
fn failed_buffered_open_exits_and_failed_sync_fails() {
    let mut run = Run::start(sequential_with_kpc(1));
    for _ in 0..3 {
        run.advance(true);
    }
    assert!(run.current() == Some(Step::OpenBuffered));
    run.advance(false);
    assert!(run.status() == RunStatus::Exited);

    let plan = sequential_direct(0);
    let mut run = Run::start(plan);
    for _ in 0..4 {
        run.advance(true);
    }
    assert!(run.current() == Some(Step::SyncFd));
    run.advance(false);
    assert!(run.status() == RunStatus::Failed);
}

#[test]
fn empty_plan_is_complete_at_once() {
    let run = Run::start(Vec::new());
    assert!(run.status() == RunStatus::Completed);
    assert!(run.current().is_none());
    assert_eq!(run.samples(), 0);
}
