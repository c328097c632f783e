use gluster_volume_plugin::poller::{Action, Phase, PollError, Poller};

fn loc(s: &str) -> Option<String> {
    Some(s.to_string())
}

#[test]
fn poller_success_waits_twice_and_fetches_once() {
    let mut p = Poller::new();
    let mut waits = 0;
    let mut fetches = 0;
    let mut polls = 0;
    match p.on_reply(202, loc("/queue/A")) {
        Action::Poll(l) => {
            assert_eq!(l, "/queue/A");
            polls += 1;
        }
        other => panic!("unexpected {:?}", other),
    }
    for _ in 0..2 {
        match p.on_reply(200, None) {
            Action::WaitThenPoll(l) => {
                assert_eq!(l, "/queue/A");
                waits += 1;
                polls += 1;
            }
            other => panic!("unexpected {:?}", other),
        }
    }
    match p.on_reply(303, loc("/volumes/B")) {
        Action::Fetch(l) => {
            assert_eq!(l, "/volumes/B");
            fetches += 1;
        }
        other => panic!("unexpected {:?}", other),
    }
    assert_eq!(p.phase(), Phase::Redirected);
    match p.on_reply(200, None) {
        Action::Finish => {}
        other => panic!("unexpected {:?}", other),
    }
    assert_eq!(p.phase(), Phase::Completed);
    assert_eq!(waits, 2);
    assert_eq!(fetches, 1);
    assert_eq!(polls, 3);
    assert_eq!(p.polls(), 3);
}

#[test]
fn poller_no_content_is_the_result() {
    let mut p = Poller::new();
    assert!(matches!(p.on_reply(202, loc("/queue/A")), Action::Poll(_)));
    assert!(matches!(p.on_reply(204, None), Action::Finish));
    assert_eq!(p.phase(), Phase::Completed);
    assert_eq!(p.polls(), 1);
}

#[test]
fn poller_rejects_bad_submission() {
    for status in [200u16, 201, 204, 303, 400, 404, 500] {
        let mut p = Poller::new();
        match p.on_reply(status, loc("/queue/A")) {
            Action::Fail(PollError::UnexpectedStatus(s)) => assert_eq!(s, status),
            other => panic!("unexpected {:?}", other),
        }
        assert_eq!(p.phase(), Phase::Failed);
        assert_eq!(p.polls(), 0);
    }
}

#[test]
fn poller_accepted_without_location_fails() {
    let mut p = Poller::new();
    assert!(matches!(p.on_reply(202, None), Action::Fail(PollError::MissingLocation)));
    assert_eq!(p.phase(), Phase::Failed);
}

#[test]
fn poller_see_other_without_location_fails() {
    let mut p = Poller::new();
    p.on_reply(202, loc("/queue/A"));
    assert!(matches!(p.on_reply(303, None), Action::Fail(PollError::MissingLocation)));
    assert_eq!(p.phase(), Phase::Failed);
}

#[test]
fn poller_server_error_is_operation_failure() {
    let mut p = Poller::new();
    p.on_reply(202, loc("/queue/A"));
    assert!(matches!(p.on_reply(500, None), Action::Fail(PollError::OperationFailed(500))));
    assert_eq!(p.phase(), Phase::Failed);
}

#[test]
fn poller_unexpected_poll_status_fails() {
    let mut p = Poller::new();
    p.on_reply(202, loc("/queue/A"));
    assert!(matches!(p.on_reply(404, None), Action::Fail(PollError::UnexpectedStatus(404))));
    assert_eq!(p.phase(), Phase::Failed);
}

#[test]
fn poller_budget_exhausted() {
    let mut p = Poller::with_budget(2);
    assert!(matches!(p.on_reply(202, loc("/queue/A")), Action::Poll(_)));
    assert!(matches!(p.on_reply(200, None), Action::WaitThenPoll(_)));
    assert_eq!(p.polls(), 2);
    assert!(matches!(p.on_reply(200, None), Action::Fail(PollError::BudgetExhausted)));
    assert_eq!(p.phase(), Phase::Failed);
}

#[test]
fn poller_terminal_phases() {
    assert!(Phase::Completed.is_terminal());
    assert!(Phase::Failed.is_terminal());
    assert!(!Phase::Submitted.is_terminal());
    assert!(!Phase::Pending.is_terminal());
    assert!(!Phase::Redirected.is_terminal());
}
