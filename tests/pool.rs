use rustbook::pool::Message;
use rustbook::pool::Pool;
use rustbook::pool::PoolError;
use rustbook::pool::WorkerState;
use rustbook::pool::MAX_POOL_SIZE;

/// Lets the running workers take messages in turn until the queue is
/// empty or no worker is left, recording each task with the worker that
/// took it.
fn drain(pool: &mut Pool, ran: &mut Vec<(u64, usize)>) {
    loop {
        let mut took = false;
        for w in 0..pool.size() {
            if pool.worker_state(w) != WorkerState::Running {
                continue;
            }
            match pool.receive(w) {
                Some(Message::Run(t)) => {
                    ran.push((t, w));
                    took = true;
                }
                Some(Message::Stop) => took = true,
                None => {}
            }
        }
        if !took {
            break;
        }
    }
}

#[test]
fn new_pool_has_size_workers_with_ids_in_range() {
    for size in [1usize, 2, 4, 17, MAX_POOL_SIZE] {
        let pool = Pool::new(size);
        assert_eq!(pool.size(), size);
        assert_eq!(pool.worker_ids(), (0..size).collect::<Vec<usize>>());
        assert_eq!(pool.running_workers(), size);
        assert!(!pool.is_closed());
        assert_eq!(pool.pending_tasks(), Vec::<u64>::new());
        assert_eq!(pool.pending_stops(), 0);
    }
}

#[test]
fn submit_numbers_tasks_in_order() {
    let mut pool = Pool::new(2);
    assert_eq!(pool.submit(), Ok(0));
    assert_eq!(pool.submit(), Ok(1));
    assert_eq!(pool.submit(), Ok(2));
    assert_eq!(pool.submitted(), 3);
    assert_eq!(pool.pending_tasks(), vec![0, 1, 2]);
}

#[test]
fn receive_hands_front_task_to_one_worker() {
    let mut pool = Pool::new(3);
    pool.submit().unwrap();
    pool.submit().unwrap();
    assert_eq!(pool.receive(2), Some(Message::Run(0)));
    assert_eq!(pool.receive(0), Some(Message::Run(1)));
    assert_eq!(pool.receive(1), None);
    assert_eq!(pool.pending_tasks(), Vec::<u64>::new());
    assert_eq!(pool.running_workers(), 3);
}

#[test]
fn each_task_runs_exactly_once() {
    let mut pool = Pool::new(3);
    let mut ran = Vec::new();
    for _ in 0..7 {
        pool.submit().unwrap();
    }
    assert_eq!(pool.receive(1), Some(Message::Run(0)));
    ran.push((0, 1));
    for _ in 0..5 {
        pool.submit().unwrap();
    }
    drain(&mut pool, &mut ran);
    let mut tasks: Vec<u64> = ran.iter().map(|p| p.0).collect();
    tasks.sort();
    assert_eq!(tasks, (0..12).collect::<Vec<u64>>());
}

#[test]
fn shutdown_sends_one_stop_per_worker() {
    let mut pool = Pool::new(5);
    pool.submit().unwrap();
    assert_eq!(pool.shutdown(), 5);
    assert!(pool.is_closed());
    assert_eq!(pool.pending_stops(), 5);
    assert_eq!(pool.pending_tasks(), vec![0]);
    assert!(!pool.is_finished());
}

#[test]
fn tasks_queued_before_shutdown_still_run() {
    let mut pool = Pool::new(2);
    pool.submit().unwrap();
    pool.submit().unwrap();
    pool.submit().unwrap();
    pool.shutdown();
    assert_eq!(pool.receive(1), Some(Message::Run(0)));
    assert_eq!(pool.receive(1), Some(Message::Run(1)));
    assert_eq!(pool.receive(0), Some(Message::Run(2)));
    assert_eq!(pool.receive(0), Some(Message::Stop));
    assert_eq!(pool.worker_state(0), WorkerState::Stopped);
    assert!(!pool.is_finished());
    assert_eq!(pool.receive(1), Some(Message::Stop));
    assert!(pool.is_finished());
    assert_eq!(pool.running_workers(), 0);
}

#[test]
fn second_shutdown_sends_nothing() {
    let mut pool = Pool::new(3);
    assert_eq!(pool.shutdown(), 3);
    assert_eq!(pool.receive(0), Some(Message::Stop));
    assert_eq!(pool.shutdown(), 0);
    assert_eq!(pool.pending_stops(), 2);
    assert_eq!(pool.running_workers(), 2);
}

#[test]
fn scenario_ten_tasks_on_four_workers() {
    let mut pool = Pool::new(4);
    let mut collector = Vec::new();
    for _ in 0..10 {
        pool.submit().unwrap();
    }
    pool.shutdown();
    drain(&mut pool, &mut collector);
    assert!(pool.is_finished());
    let mut seen: Vec<u64> = collector.iter().map(|p| p.0).collect();
    seen.sort();
    assert_eq!(seen, (0..10).collect::<Vec<u64>>());
    for (_, w) in &collector {
        assert!(*w < 4);
    }
}

#[test]
fn scenario_single_worker_serializes_tasks() {
    let mut pool = Pool::new(1);
    let first = pool.submit().unwrap();
    let second = pool.submit().unwrap();
    assert_eq!(pool.receive(0), Some(Message::Run(first)));
    // while the only worker runs the first task the second one waits
    assert_eq!(pool.pending_tasks(), vec![second]);
    assert_eq!(pool.receive(0), Some(Message::Run(second)));
    assert_eq!(pool.receive(0), None);
}

#[test]
fn scenario_shutdown_with_no_tasks() {
    let mut pool = Pool::new(2);
    assert_eq!(pool.shutdown(), 2);
    assert_eq!(pool.receive(0), Some(Message::Stop));
    assert_eq!(pool.receive(1), Some(Message::Stop));
    assert!(pool.is_finished());
    assert_eq!(pool.worker_state(0), WorkerState::Stopped);
    assert_eq!(pool.worker_state(1), WorkerState::Stopped);
}

#[test]
fn scenario_submit_after_shutdown_is_refused() {
    let mut pool = Pool::new(2);
    pool.submit().unwrap();
    pool.shutdown();
    assert_eq!(pool.submit(), Err(PoolError::PoolClosed));
    assert_eq!(pool.submit(), Err(PoolError::PoolClosed));
    assert_eq!(pool.submitted(), 1);
    assert_eq!(pool.pending_tasks(), vec![0]);
    let mut ran = Vec::new();
    drain(&mut pool, &mut ran);
    assert_eq!(ran.iter().map(|p| p.0).collect::<Vec<u64>>(), vec![0]);
}
