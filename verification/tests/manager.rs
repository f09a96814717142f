use std::sync::Arc;
use std::time::Duration;

use tokio::sync::watch;
use tokio::sync::Semaphore;
use worker_pool::error::PoolError;
use worker_pool::guard::SlotTable;
use worker_pool::guard::UsingGuard;
use worker_pool::manager::WorkerManager;
use worker_pool::worker::Event;
use worker_pool::worker::ExitPoll;
use worker_pool::worker::Outcome;
use worker_pool::worker::Stage;

fn ready() -> Event {
    Event::Ready {
        line: b"done\n".to_vec(),
        exit: ExitPoll::Running,
    }
}

fn started_pool(count: usize) -> WorkerManager {
    let mut pool = WorkerManager::new(count, "python", "worker.py");
    let mut startup = pool.wait_for_all_start();
    while !startup.stage().is_done() {
        startup = pool.continue_start(startup, ready());
    }
    assert_eq!(startup.finish(), Stage::Done(Outcome::Started));
    pool
}

#[test]
fn new_pool_is_idle() {
    let pool = WorkerManager::new(3, "/bin/python3", "w.py");
    assert_eq!(pool.worker_count(), 3);
    assert_eq!(pool.python_executable(), "/bin/python3");
    assert_eq!(pool.worker_py(), "w.py");
    assert_eq!(pool.occupancy(), 0);
}

#[test]
fn startup_takes_the_workers_in_order() {
    let mut pool = WorkerManager::new(3, "python", "worker.py");
    let startup = pool.wait_for_all_start();
    assert_eq!(startup.worker(), 0);
    assert_eq!(startup.stage(), &Stage::Starting);
    let startup = pool.continue_start(startup, ready());
    assert_eq!(startup.worker(), 1);
    assert_eq!(startup.stage(), &Stage::Starting);
    let startup = pool.continue_start(startup, ready());
    assert_eq!(startup.worker(), 2);
    assert_eq!(startup.stage(), &Stage::Starting);
    let startup = pool.continue_start(startup, ready());
    assert_eq!(startup.worker(), 2);
    assert_eq!(startup.finish(), Stage::Done(Outcome::Started));
}

#[test]
fn startup_stops_at_the_first_failure() {
    let mut pool = WorkerManager::new(3, "python", "worker.py");
    let startup = pool.wait_for_all_start();
    let startup = pool.continue_start(startup, ready());
    let startup = pool.continue_start(
        startup,
        Event::Ready {
            line: b"boom\n".to_vec(),
            exit: ExitPoll::Running,
        },
    );
    assert_eq!(startup.worker(), 1);
    assert_eq!(
        startup.stage(),
        &Stage::Done(Outcome::Failed(PoolError::UnexpectedStartupOutput(
            b"boom".to_vec()
        )))
    );
    let startup = pool.continue_start(startup, ready());
    assert_eq!(startup.worker(), 1);
    assert_eq!(
        startup.finish(),
        Stage::Done(Outcome::Failed(PoolError::UnexpectedEvent))
    );
}

#[test]
fn startup_of_an_empty_pool_is_over_at_once() {
    let mut pool = WorkerManager::new(0, "python", "worker.py");
    let startup = pool.wait_for_all_start();
    assert_eq!(startup.worker(), 0);
    assert_eq!(startup.finish(), Stage::Done(Outcome::Started));
    assert!(matches!(
        pool.run_query("q"),
        Err(PoolError::NoSlotAvailable)
    ));
}

#[test]
fn startup_is_refused_once_done() {
    let mut pool = started_pool(2);
    let startup = pool.wait_for_all_start();
    assert_eq!(startup.worker(), 0);
    assert_eq!(
        startup.finish(),
        Stage::Done(Outcome::Failed(PoolError::AlreadyStarted))
    );
}

#[test]
fn pool_serves_as_many_callers_as_it_has_workers() {
    for n in 1..6usize {
        let pool = started_pool(n);
        let mut calls = Vec::new();
        for k in 0..n {
            let call = pool.run_query("q").unwrap_or_else(|e| panic!("caller {} saw {:?}", k, e));
            assert_eq!(call.get_locked_idx(), k);
            calls.push(call);
        }
        assert_eq!(pool.occupancy(), n);
        match pool.run_query("one too many") {
            Err(error) => {
                assert_eq!(error, PoolError::NoSlotAvailable);
                assert!(error.is_retryable());
            }
            Ok(_) => panic!("a full pool served another caller"),
        }
        assert_eq!(pool.occupancy(), n);
        drop(calls);
        assert_eq!(pool.occupancy(), 0);
    }
}

#[test]
fn released_slot_goes_to_the_next_caller() {
    let pool = started_pool(3);
    let first = pool.run_query("a").unwrap_or_else(|e| panic!("{:?}", e));
    let second = pool.run_query("b").unwrap_or_else(|e| panic!("{:?}", e));
    let third = pool.run_query("c").unwrap_or_else(|e| panic!("{:?}", e));
    assert_eq!(pool.occupancy(), 3);
    drop(second);
    assert_eq!(pool.occupancy(), 2);
    let again = pool.run_query("d").unwrap_or_else(|e| panic!("{:?}", e));
    assert_eq!(again.get_locked_idx(), 1);
    assert_eq!(first.get_locked_idx(), 0);
    assert_eq!(third.get_locked_idx(), 2);
    assert_eq!(pool.occupancy(), 3);
}

#[test]
fn query_runs_to_its_reply_and_frees_the_slot() {
    let pool = started_pool(1);
    let call = pool.run_query("abc").unwrap_or_else(|e| panic!("{:?}", e));
    assert_eq!(call.get_locked_idx(), 0);
    assert_eq!(
        call.stage(),
        &Stage::CheckingAlive {
            query: "abc".to_string()
        }
    );
    let call = call.advance(Event::Exit(ExitPoll::Running));
    assert_eq!(
        call.stage(),
        &Stage::Sending {
            line: "{\"task\":\"query\",\"query\":\"abc\"}\n".to_string()
        }
    );
    let call = call.advance(Event::Sent);
    assert_eq!(call.stage(), &Stage::Receiving);
    let call = call.advance(Event::Line(b"{\"reply\":\"cba\",\"ok\":true}\n".to_vec()));
    assert_eq!(call.get_locked_idx(), 0);
    assert_eq!(pool.occupancy(), 1);
    assert_eq!(call.finish(), Stage::Done(Outcome::Reply("cba".to_string())));
    assert_eq!(pool.occupancy(), 0);
}

#[test]
fn failed_query_frees_the_slot_too() {
    let pool = started_pool(2);
    let call = pool.run_query("xyz").unwrap_or_else(|e| panic!("{:?}", e));
    let call = call.advance(Event::Exit(ExitPoll::Running));
    let call = call.advance(Event::Sent);
    let call = call.advance(Event::Line(
        b"{\"reply\":\"bad input\",\"ok\":false}\n".to_vec(),
    ));
    assert_eq!(pool.occupancy(), 1);
    match call.finish().into_outcome() {
        Some(Outcome::Failed(error)) => assert_eq!(error.message(), "bad input"),
        other => panic!("unexpected outcome {:?}", other),
    }
    assert_eq!(pool.occupancy(), 0);
    let call = pool.run_query("next").unwrap_or_else(|e| panic!("{:?}", e));
    assert_eq!(call.get_locked_idx(), 0);
}

#[test]
fn abandoned_query_frees_the_slot() {
    let pool = started_pool(1);
    {
        let call = pool.run_query("slow").unwrap_or_else(|e| panic!("{:?}", e));
        let _call = call.advance(Event::Exit(ExitPoll::Running));
        assert_eq!(pool.occupancy(), 1);
    }
    assert_eq!(pool.occupancy(), 0);
    assert!(pool.run_query("next").is_ok());
}

#[test]
fn dead_worker_is_restarted_within_the_query() {
    let pool = started_pool(1);
    let call = pool.run_query("q").unwrap_or_else(|e| panic!("{:?}", e));
    let call = call.advance(Event::Exit(ExitPoll::Exited("exit status: 1".to_string())));
    assert_eq!(
        call.stage(),
        &Stage::Respawning {
            query: "q".to_string()
        }
    );
    let call = call.advance(Event::Respawned);
    let call = call.advance(ready());
    let call = call.advance(Event::Sent);
    let call = call.advance(Event::Line(b"{\"reply\":\"r\",\"ok\":true}\n".to_vec()));
    assert_eq!(call.finish(), Stage::Done(Outcome::Reply("r".to_string())));
    let call = pool.run_query("again").unwrap_or_else(|e| panic!("{:?}", e));
    assert_eq!(
        call.stage(),
        &Stage::CheckingAlive {
            query: "again".to_string()
        }
    );
}

#[test]
fn query_on_a_pool_that_was_not_started_starts_the_worker() {
    let pool = WorkerManager::new(1, "python", "worker.py");
    let call = pool.run_query("q").unwrap_or_else(|e| panic!("{:?}", e));
    assert_eq!(
        call.stage(),
        &Stage::LazyStarting {
            query: "q".to_string()
        }
    );
}

#[test]
fn four_callers_hold_four_slots_until_released() {
    let runtime = tokio::runtime::Builder::new_multi_thread()
        .worker_threads(2)
        .enable_all()
        .build()
        .unwrap();
    runtime.block_on(async {
        let pool = Arc::new(started_pool(4));
        let sema = Arc::new(Semaphore::new(4));
        let (tx, rx) = watch::channel(false);
        let mut handles = vec![];
        for _ in 0..4 {
            let pool = pool.clone();
            let sema = sema.clone();
            let mut rx = rx.clone();
            handles.push(tokio::spawn(async move {
                let call = pool.run_query("held").unwrap_or_else(|e| panic!("{:?}", e));
                let idx = call.get_locked_idx();
                std::mem::forget(sema.acquire_owned().await.unwrap());
                rx.changed().await.unwrap();
                drop(call);
                idx
            }));
        }
        while sema.available_permits() != 0 {
            tokio::time::sleep(Duration::from_millis(1)).await;
        }
        assert_eq!(pool.occupancy(), 4);
        assert!(matches!(
            pool.run_query("fifth"),
            Err(PoolError::NoSlotAvailable)
        ));
        tx.send(true).unwrap();
        let mut seen = Vec::new();
        for handle in handles.into_iter() {
            seen.push(handle.await.unwrap());
        }
        seen.sort();
        assert_eq!(seen, vec![0, 1, 2, 3]);
        assert_eq!(pool.occupancy(), 0);
    });
}

#[test]
fn query_begins_on_the_worker_of_the_tickets_slot() {
    let mut pool = WorkerManager::new(3, "python", "worker.py");
    let startup = pool.wait_for_all_start();
    let startup = pool.continue_start(startup, ready());
    let startup = pool.continue_start(
        startup,
        Event::Ready {
            line: b"boom\n".to_vec(),
            exit: ExitPoll::Running,
        },
    );
    assert_eq!(startup.worker(), 1);
    assert!(startup.stage().is_done());

    let tickets = SlotTable::new(3);
    let zero = UsingGuard::new(&tickets).unwrap();
    let one = UsingGuard::new(&tickets).unwrap();
    let two = UsingGuard::new(&tickets).unwrap();

    let call = pool.begin_on(one, "b").unwrap_or_else(|e| panic!("{:?}", e));
    assert_eq!(call.get_locked_idx(), 1);
    assert_eq!(
        call.stage(),
        &Stage::LazyStarting {
            query: "b".to_string()
        }
    );
    let call = pool.begin_on(zero, "a").unwrap_or_else(|e| panic!("{:?}", e));
    assert_eq!(call.get_locked_idx(), 0);
    assert_eq!(
        call.stage(),
        &Stage::CheckingAlive {
            query: "a".to_string()
        }
    );
    let call = pool.begin_on(two, "c").unwrap_or_else(|e| panic!("{:?}", e));
    assert_eq!(call.get_locked_idx(), 2);
    assert_eq!(
        call.stage(),
        &Stage::LazyStarting {
            query: "c".to_string()
        }
    );
}

#[test]
fn ticket_for_no_worker_of_the_pool_is_refused_and_given_back() {
    let pool = started_pool(2);
    let tickets = SlotTable::new(3);
    let _zero = UsingGuard::new(&tickets).unwrap();
    let _one = UsingGuard::new(&tickets).unwrap();
    let two = UsingGuard::new(&tickets).unwrap();
    assert_eq!(two.get_locked_idx(), 2);
    assert_eq!(tickets.occupancy(), 3);
    assert!(matches!(
        pool.begin_on(two, "q"),
        Err(PoolError::NoSlotAvailable)
    ));
    assert_eq!(tickets.snapshot(), vec![true, true, false]);
}

#[test]
fn dispatch_frees_the_slot_of_the_table_it_came_from() {
    let pool = started_pool(2);
    let tickets = SlotTable::new(2);
    let zero = UsingGuard::new(&tickets).unwrap();
    let call = pool.begin_on(zero, "q").unwrap_or_else(|e| panic!("{:?}", e));
    assert_eq!(tickets.occupancy(), 1);
    assert_eq!(pool.occupancy(), 0);
    let call = call.advance(Event::Exit(ExitPoll::Running));
    assert_eq!(call.get_locked_idx(), 0);
    drop(call);
    assert_eq!(tickets.occupancy(), 0);
}
