use worker_pool::error::byte_list;
use worker_pool::error::PoolError;
use worker_pool::worker::check_alive;
use worker_pool::worker::check_ready;
use worker_pool::worker::Event;
use worker_pool::worker::ExitPoll;
use worker_pool::worker::Outcome;
use worker_pool::worker::Stage;
use worker_pool::worker::Worker;

fn fresh() -> Worker {
    Worker::new("python", &["worker.py".to_string()])
}

fn ready() -> Event {
    Event::Ready {
        line: b"done\n".to_vec(),
        exit: ExitPoll::Running,
    }
}

fn started() -> Worker {
    let mut worker = fresh();
    let stage = worker.wait_to_start();
    assert_eq!(worker.advance(stage, ready()), Stage::Done(Outcome::Started));
    worker
}

fn request(query: &str) -> String {
    format!("{{\"task\":\"query\",\"query\":\"{}\"}}\n", query)
}

#[test]
fn new_worker_keeps_its_command_and_has_not_started() {
    let worker = Worker::new("/usr/bin/python3", &["a.py".to_string(), "-v".to_string()]);
    assert!(!worker.is_started());
    assert_eq!(worker.py_path(), "/usr/bin/python3");
    assert_eq!(worker.args(), &vec!["a.py".to_string(), "-v".to_string()]);
    let bare = Worker::new("x", &[]);
    assert!(bare.args().is_empty());
}

#[test]
fn check_ready_decides_the_handshake() {
    assert_eq!(check_ready(b"done\n".to_vec(), ExitPoll::Running), Ok(()));
    assert_eq!(check_ready(b"done\r\n".to_vec(), ExitPoll::Running), Ok(()));
    assert_eq!(check_ready(b"done".to_vec(), ExitPoll::Running), Ok(()));
    assert_eq!(
        check_ready(b"oops\n".to_vec(), ExitPoll::Running),
        Err(PoolError::UnexpectedStartupOutput(b"oops".to_vec()))
    );
    assert_eq!(
        check_ready(Vec::new(), ExitPoll::Running),
        Err(PoolError::UnexpectedStartupOutput(Vec::new()))
    );
    assert_eq!(
        check_ready(b"done\n".to_vec(), ExitPoll::Exited("exit status: 1".to_string())),
        Err(PoolError::ProcessExited("exit status: 1".to_string()))
    );
    assert_eq!(
        check_ready(b"done\n".to_vec(), ExitPoll::Unknown("no child".to_string())),
        Err(PoolError::Io("no child".to_string()))
    );
}

#[test]
fn check_alive_asks_for_a_restart_only_after_an_exit() {
    assert!(check_alive(&ExitPoll::Exited("exit status: 0".to_string())));
    assert!(!check_alive(&ExitPoll::Running));
    assert!(!check_alive(&ExitPoll::Unknown("?".to_string())));
}

#[test]
fn handshake_marks_the_worker_started() {
    let mut worker = fresh();
    let stage = worker.wait_to_start();
    assert_eq!(stage, Stage::Starting);
    assert!(!stage.is_done());
    let stage = worker.advance(stage, ready());
    assert_eq!(stage, Stage::Done(Outcome::Started));
    assert!(stage.is_done());
    assert_eq!(stage.into_outcome(), Some(Outcome::Started));
    assert!(worker.is_started());
}

#[test]
fn handshake_is_owed_once() {
    let worker = started();
    assert_eq!(
        worker.wait_to_start(),
        Stage::Done(Outcome::Failed(PoolError::AlreadyStarted))
    );
    assert_eq!(PoolError::AlreadyStarted.message(), "Already started");
}

#[test]
fn handshake_fails_when_the_process_has_exited() {
    let mut worker = fresh();
    let stage = worker.advance(
        Stage::Starting,
        Event::Ready {
            line: Vec::new(),
            exit: ExitPoll::Exited("exit status: 2".to_string()),
        },
    );
    assert_eq!(
        stage,
        Stage::Done(Outcome::Failed(PoolError::ProcessExited(
            "exit status: 2".to_string()
        )))
    );
    assert!(!worker.is_started());
    assert_eq!(
        PoolError::ProcessExited("exit status: 2".to_string()).message(),
        "Worker failed to start: exit status: 2"
    );
}

#[test]
fn handshake_fails_on_any_other_first_line() {
    let mut worker = fresh();
    let stage = worker.advance(
        Stage::Starting,
        Event::Ready {
            line: b"Traceback\n".to_vec(),
            exit: ExitPoll::Running,
        },
    );
    assert_eq!(
        stage,
        Stage::Done(Outcome::Failed(PoolError::UnexpectedStartupOutput(
            b"Traceback".to_vec()
        )))
    );
    assert!(!worker.is_started());
    assert_eq!(
        PoolError::UnexpectedStartupOutput(b"Traceback".to_vec()).message(),
        "Worker failed to start with: [84, 114, 97, 99, 101, 98, 97, 99, 107]"
    );
    assert_eq!(
        PoolError::UnexpectedStartupOutput(Vec::new()).message(),
        "Worker failed to start with: []"
    );
    assert_eq!(
        PoolError::UnexpectedStartupOutput(vec![0xff, 0x00]).message(),
        "Worker failed to start with: [255, 0]"
    );
}

#[test]
fn query_on_a_started_worker_checks_sends_and_receives() {
    let mut worker = started();
    let stage = worker.query("abc");
    assert_eq!(
        stage,
        Stage::CheckingAlive {
            query: "abc".to_string()
        }
    );
    let stage = worker.advance(stage, Event::Exit(ExitPoll::Running));
    assert_eq!(
        stage,
        Stage::Sending {
            line: request("abc")
        }
    );
    let stage = worker.advance(stage, Event::Sent);
    assert_eq!(stage, Stage::Receiving);
    let stage = worker.advance(
        stage,
        Event::Line(b"{\"reply\":\"ABC\",\"ok\":true}\n".to_vec()),
    );
    assert_eq!(stage, Stage::Done(Outcome::Reply("ABC".to_string())));
    assert!(worker.is_started());
}

#[test]
fn query_goes_out_although_the_status_could_not_be_had() {
    let mut worker = started();
    let stage = worker.query("abc");
    let stage = worker.advance(stage, Event::Exit(ExitPoll::Unknown("?".to_string())));
    assert_eq!(
        stage,
        Stage::Sending {
            line: request("abc")
        }
    );
}

#[test]
fn query_on_a_fresh_worker_starts_it_first() {
    let mut worker = fresh();
    let stage = worker.query("q");
    assert_eq!(
        stage,
        Stage::LazyStarting {
            query: "q".to_string()
        }
    );
    let stage = worker.advance(stage, ready());
    assert_eq!(
        stage,
        Stage::CheckingAlive {
            query: "q".to_string()
        }
    );
    assert!(worker.is_started());
    let stage = worker.advance(stage, Event::Exit(ExitPoll::Running));
    assert_eq!(stage, Stage::Sending { line: request("q") });
}

#[test]
fn lazy_start_that_fails_ends_the_query() {
    let mut worker = fresh();
    let stage = worker.query("q");
    let stage = worker.advance(
        stage,
        Event::Ready {
            line: b"nope\n".to_vec(),
            exit: ExitPoll::Running,
        },
    );
    assert_eq!(
        stage,
        Stage::Done(Outcome::Failed(PoolError::UnexpectedStartupOutput(
            b"nope".to_vec()
        )))
    );
    assert!(!worker.is_started());
}

#[test]
fn dead_worker_is_restarted_and_answers() {
    let mut worker = started();
    let stage = worker.query("after crash");
    let stage = worker.advance(
        stage,
        Event::Exit(ExitPoll::Exited("signal: 9 (SIGKILL)".to_string())),
    );
    assert_eq!(
        stage,
        Stage::Respawning {
            query: "after crash".to_string()
        }
    );
    let stage = worker.advance(stage, Event::Respawned);
    assert_eq!(
        stage,
        Stage::Restarting {
            query: "after crash".to_string()
        }
    );
    assert!(!worker.is_started());
    let stage = worker.advance(stage, ready());
    assert_eq!(
        stage,
        Stage::Sending {
            line: request("after crash")
        }
    );
    assert!(worker.is_started());
    let stage = worker.advance(stage, Event::Sent);
    let stage = worker.advance(
        stage,
        Event::Line(b"{\"reply\":\"still here\",\"ok\":true}\n".to_vec()),
    );
    assert_eq!(stage, Stage::Done(Outcome::Reply("still here".to_string())));
}

#[test]
fn restart_that_cannot_launch_is_fatal_for_the_query() {
    let mut worker = started();
    let stage = worker.query("q");
    let stage = worker.advance(stage, Event::Exit(ExitPoll::Exited("exit status: 1".to_string())));
    let stage = worker.advance(stage, Event::Failed("No such file or directory".to_string()));
    assert_eq!(
        stage,
        Stage::Done(Outcome::Failed(PoolError::RestartFailed(
            "No such file or directory".to_string()
        )))
    );
    assert_eq!(
        PoolError::RestartFailed("No such file or directory".to_string()).message(),
        "Failed to restart: No such file or directory"
    );
    assert!(worker.is_started());
}

#[test]
fn restart_whose_replacement_does_not_announce_itself_is_fatal() {
    let mut worker = started();
    let stage = worker.query("q");
    let stage = worker.advance(stage, Event::Exit(ExitPoll::Exited("exit status: 1".to_string())));
    let stage = worker.advance(stage, Event::Respawned);
    let stage = worker.advance(
        stage,
        Event::Ready {
            line: Vec::new(),
            exit: ExitPoll::Exited("exit status: 1".to_string()),
        },
    );
    assert_eq!(
        stage,
        Stage::Done(Outcome::Failed(PoolError::ProcessExited(
            "exit status: 1".to_string()
        )))
    );
    assert!(!worker.is_started());
}

#[test]
fn worker_reported_error_carries_the_reply() {
    let mut worker = started();
    let stage = worker.query("xyz");
    let stage = worker.advance(stage, Event::Exit(ExitPoll::Running));
    let stage = worker.advance(stage, Event::Sent);
    let stage = worker.advance(
        stage,
        Event::Line(b"{\"reply\":\"bad input\",\"ok\":false}\n".to_vec()),
    );
    match stage.into_outcome() {
        Some(Outcome::Failed(error)) => {
            assert_eq!(error, PoolError::WorkerReportedError("bad input".to_string()));
            assert_eq!(error.message(), "bad input");
            assert!(!error.is_retryable());
        }
        other => panic!("unexpected outcome {:?}", other),
    }
}

#[test]
fn protocol_errors_end_the_query_and_keep_the_worker() {
    let mut worker = started();
    let stage = worker.advance(Stage::Receiving, Event::Line(b"not json\n".to_vec()));
    assert_eq!(stage, Stage::Done(Outcome::Failed(PoolError::MalformedJson)));
    let stage = worker.advance(Stage::Receiving, Event::Line(vec![0xff, b'\n']));
    assert_eq!(stage, Stage::Done(Outcome::Failed(PoolError::InvalidUtf8)));
    assert!(worker.is_started());
    assert_eq!(
        worker.query("next"),
        Stage::CheckingAlive {
            query: "next".to_string()
        }
    );
}

#[test]
fn failed_io_ends_the_call_with_its_reason() {
    let stages = vec![
        Stage::Starting,
        Stage::LazyStarting {
            query: "q".to_string(),
        },
        Stage::CheckingAlive {
            query: "q".to_string(),
        },
        Stage::Restarting {
            query: "q".to_string(),
        },
        Stage::Sending {
            line: "l".to_string(),
        },
        Stage::Receiving,
    ];
    for stage in stages {
        let mut worker = fresh();
        assert_eq!(
            worker.advance(stage, Event::Failed("broken pipe".to_string())),
            Stage::Done(Outcome::Failed(PoolError::Io("broken pipe".to_string())))
        );
        assert!(!worker.is_started());
    }
    assert_eq!(PoolError::Io("broken pipe".to_string()).message(), "broken pipe");
}

#[test]
fn events_out_of_turn_are_refused() {
    let mut worker = started();
    let unexpected = Stage::Done(Outcome::Failed(PoolError::UnexpectedEvent));
    assert_eq!(worker.advance(Stage::Starting, Event::Sent), unexpected);
    assert_eq!(
        worker.advance(
            Stage::CheckingAlive {
                query: "q".to_string()
            },
            ready()
        ),
        unexpected
    );
    assert_eq!(
        worker.advance(
            Stage::Respawning {
                query: "q".to_string()
            },
            Event::Sent
        ),
        unexpected
    );
    assert_eq!(
        worker.advance(
            Stage::Sending {
                line: "l".to_string()
            },
            Event::Line(Vec::new())
        ),
        unexpected
    );
    assert_eq!(worker.advance(Stage::Receiving, Event::Respawned), unexpected);
    assert_eq!(
        worker.advance(Stage::Done(Outcome::Started), Event::Sent),
        unexpected
    );
    assert_eq!(
        worker.advance(
            Stage::Done(Outcome::Reply("r".to_string())),
            Event::Failed("x".to_string())
        ),
        unexpected
    );
    assert!(worker.is_started());
    assert_eq!(
        PoolError::UnexpectedEvent.message(),
        "Unexpected event for the current stage"
    );
}

#[test]
fn stage_that_is_not_done_has_no_outcome() {
    assert_eq!(Stage::Receiving.into_outcome(), None);
    assert_eq!(
        Stage::Done(Outcome::Reply("r".to_string())).into_outcome(),
        Some(Outcome::Reply("r".to_string()))
    );
}

#[test]
fn byte_list_shows_bytes_as_the_standard_formatter_does() {
    assert_eq!(byte_list(&Vec::new()), "[]");
    assert_eq!(byte_list(&vec![7]), "[7]");
    assert_eq!(byte_list(&vec![0, 9, 10, 99, 100, 101, 110, 200, 255]), "[0, 9, 10, 99, 100, 101, 110, 200, 255]");
    let all: Vec<u8> = (0..=255u8).collect();
    assert_eq!(byte_list(&all), format!("{:?}", all));
    let line = b"oops".to_vec();
    assert_eq!(
        PoolError::UnexpectedStartupOutput(line.clone()).message(),
        format!("Worker failed to start with: {:?}", line)
    );
}
