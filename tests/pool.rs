use std::cell::Cell;
use std::rc::Rc;

use threadpool::{Delivery, Message, PoolCore, PoolError, Step, TaskOutcome, WorkerPhase, WorkerState};

type Task = Box<dyn FnOnce()>;

/// Drives `workers` workers in turn against the core until every one of them
/// has stopped, running each task it is handed. Returns how many tasks ran.
fn drive(core: &mut PoolCore<Task>, workers: usize) -> usize {
    let mut states: Vec<WorkerState> = (0..workers).map(WorkerState::new).collect();
    let mut ran = 0;
    loop {
        let mut progressed = false;
        for w in states.iter_mut() {
            if w.is_terminated() {
                continue;
            }
            match w.on_delivery(core.take()) {
                Step::Run(task) => {
                    task();
                    ran += 1;
                    assert!(!w.on_task_end(TaskOutcome::Completed));
                    progressed = true;
                }
                Step::Exit => progressed = true,
                Step::Wait => {}
                Step::Abandon => panic!("worker {} lost the channel", w.id),
            }
        }
        if states.iter().all(|w| w.is_terminated()) || !progressed {
            return ran;
        }
    }
}

fn counting_run(workers: usize, tasks: usize) -> (usize, usize) {
    let mut core: PoolCore<Task> = PoolCore::new(workers).unwrap();
    let count = Rc::new(Cell::new(0usize));
    for _ in 0..tasks {
        let data = count.clone();
        core.submit(Box::new(move || data.set(data.get() + 1))).unwrap();
    }
    assert!(core.shutdown());
    let ran = drive(&mut core, workers);
    (count.get(), ran)
}

#[test]
fn thread_spawning() {
    let (count, _) = counting_run(4, 20);
    assert_eq!(count, 20);
}

#[test]
fn every_task_runs_once_for_each_size() {
    for n in [1usize, 4, 20] {
        for m in [0usize, 1, 100] {
            assert_eq!(counting_run(n, m), (m, m));
        }
    }
}

#[test]
fn create_zero_is_invalid() {
    assert!(matches!(PoolCore::<u32>::new(0), Err(PoolError::InvalidConfiguration)));
}

#[test]
fn create_keeps_worker_count() {
    for n in [1usize, 4, 20] {
        let core = PoolCore::<u32>::new(n).unwrap();
        assert_eq!(core.worker_count(), n);
        assert!(!core.is_closed());
    }
}

#[test]
fn shutdown_twice_sends_one_stop_per_worker() {
    let mut core = PoolCore::<u32>::new(3).unwrap();
    core.submit(7).unwrap();
    assert!(core.shutdown());
    assert!(!core.shutdown());
    assert!(core.is_closed());
    assert!(matches!(core.take(), Delivery::Received(Message::Work(7))));
    for _ in 0..3 {
        assert!(matches!(core.take(), Delivery::Received(Message::Terminate)));
    }
    assert!(matches!(core.take(), Delivery::Drained));
}

#[test]
fn submit_after_shutdown_is_refused_and_not_run() {
    let mut core: PoolCore<Task> = PoolCore::new(2).unwrap();
    let count = Rc::new(Cell::new(0usize));
    core.shutdown();
    let data = count.clone();
    let r = core.submit(Box::new(move || data.set(data.get() + 1)));
    assert_eq!(r, Err(PoolError::PoolClosed));
    assert_eq!(drive(&mut core, 2), 0);
    assert_eq!(count.get(), 0);
}

#[test]
fn messages_come_out_in_submission_order() {
    let mut core = PoolCore::<u32>::new(1).unwrap();
    for i in 0..5u32 {
        core.submit(i).unwrap();
    }
    for i in 0..5u32 {
        match core.take() {
            Delivery::Received(Message::Work(x)) => assert_eq!(x, i),
            _ => panic!("expected task {}", i),
        }
    }
    assert!(matches!(core.take(), Delivery::Empty));
}

#[test]
fn empty_open_channel_asks_to_wait() {
    let mut core = PoolCore::<u32>::new(2).unwrap();
    assert!(matches!(core.take(), Delivery::Empty));
    let mut w = WorkerState::new(0);
    assert!(matches!(w.on_delivery(core.take()), Step::Wait));
    assert_eq!(w.phase, WorkerPhase::Waiting);
}

#[test]
fn worker_runs_then_waits_again() {
    let mut w = WorkerState::new(3);
    match w.on_delivery(Delivery::Received(Message::Work(5u32))) {
        Step::Run(x) => assert_eq!(x, 5),
        _ => panic!("expected a task"),
    }
    assert_eq!(w.phase, WorkerPhase::Executing);
    assert!(!w.on_task_end(TaskOutcome::Completed));
    assert_eq!(w.phase, WorkerPhase::Waiting);
    assert_eq!(w.id, 3);
}

#[test]
fn panicked_task_is_reported_and_worker_carries_on() {
    let mut core = PoolCore::<u32>::new(1).unwrap();
    core.submit(1).unwrap();
    core.submit(2).unwrap();
    let mut w = WorkerState::new(0);
    assert!(matches!(w.on_delivery(core.take()), Step::Run(1)));
    assert!(w.on_task_end(TaskOutcome::Panicked));
    assert_eq!(w.phase, WorkerPhase::Waiting);
    core.submit(3).unwrap();
    assert!(matches!(w.on_delivery(core.take()), Step::Run(2)));
    assert!(!w.on_task_end(TaskOutcome::Completed));
    assert!(matches!(w.on_delivery(core.take()), Step::Run(3)));
    assert!(!w.on_task_end(TaskOutcome::Completed));
    core.shutdown();
    assert!(matches!(w.on_delivery(core.take()), Step::Exit));
    assert!(w.is_terminated());
}

#[test]
fn drained_channel_abandons_worker() {
    let mut core = PoolCore::<u32>::new(1).unwrap();
    core.shutdown();
    assert!(matches!(core.take(), Delivery::Received(Message::Terminate)));
    let mut w = WorkerState::new(1);
    assert!(matches!(w.on_delivery(core.take()), Step::Abandon));
    assert_eq!(w.phase, WorkerPhase::Terminated);
}

#[test]
fn terminate_is_told_apart_from_work() {
    assert!(Message::<u32>::Terminate.is_terminate());
    assert!(!Message::Work(4u32).is_terminate());
}
