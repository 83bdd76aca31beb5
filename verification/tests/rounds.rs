use anonhive_worker::api::PendingJob;
use anonhive_worker::poll::{completion_verdict, Action, Event, Round, POLL_SECONDS};
use anonhive_worker::status::HttpStatus;

fn status(code: u16) -> HttpStatus {
    HttpStatus::from_u16(code).unwrap()
}

fn job(id: i64) -> PendingJob {
    PendingJob {
        id,
        raw_file_key: Some("raw/a.mp4".to_string()),
        delete_raw_after: false,
        title: None,
    }
}

fn claimed() -> Round {
    let mut round = Round::begin();
    assert!(matches!(round.step(Event::Answered(status(200))), Action::ReadList));
    assert!(round.job().is_none());
    let action = round.step(Event::Listed(vec![job(11), job(12)]));
    assert!(matches!(action, Action::Claim(11)));
    assert_eq!(round.job().unwrap().id, 11);
    round
}

fn broken(error: &str) -> Event {
    Event::Broken(error.to_string())
}

fn fails_with(action: Action, error: &str) -> bool {
    match action {
        Action::Fail(message) => message == error,
        _ => false,
    }
}

#[test]
fn rounds_are_five_seconds_apart() {
    assert_eq!(POLL_SECONDS, 5);
}

#[test]
fn a_job_is_found_claimed_and_done() {
    let mut round = claimed();
    assert!(matches!(round.step(Event::Claimed(status(200))), Action::Work));
    assert!(matches!(round.step(Event::Done), Action::Finish));
    assert!(matches!(round.step(Event::Done), Action::Ignore));
}

#[test]
fn a_job_that_fails_is_reported() {
    let mut round = claimed();
    assert!(matches!(round.step(Event::Claimed(status(204))), Action::Work));
    match round.step(Event::Failed("disk full".to_string())) {
        Action::Report(id, message) => {
            assert_eq!(id, 11);
            assert_eq!(message, "\u{274c} Failed: disk full");
        }
        other => panic!("{:?}", other),
    }
    assert!(matches!(round.step(Event::Reported), Action::Finish));
}

#[test]
fn no_job_is_no_error() {
    let mut round = Round::begin();
    assert!(matches!(round.step(Event::Answered(status(200))), Action::ReadList));
    assert!(matches!(round.step(Event::Listed(Vec::new())), Action::Idle));
}

#[test]
fn a_job_of_another_worker_is_no_error() {
    let mut round = claimed();
    assert!(matches!(round.step(Event::Claimed(status(409))), Action::Taken));
    assert!(matches!(round.step(Event::Done), Action::Ignore));
}

#[test]
fn a_refused_poll_is_an_error() {
    let mut round = Round::begin();
    match round.step(Event::Answered(status(503))) {
        Action::Fail(message) => {
            assert_eq!(message, "Failed to poll pending jobs: status=503 Service Unavailable");
        }
        other => panic!("{:?}", other),
    }
}

#[test]
fn a_refused_claim_is_an_error() {
    let mut round = claimed();
    match round.step(Event::Claimed(status(404))) {
        Action::Fail(message) => {
            assert_eq!(message, "Failed to claim job: status=404 Not Found");
        }
        other => panic!("{:?}", other),
    }
}

#[test]
fn a_broken_request_ends_the_round() {
    let mut round = Round::begin();
    assert!(fails_with(round.step(broken("no route")), "no route"));
    let mut round = claimed();
    assert!(fails_with(round.step(broken("timed out")), "timed out"));
    assert!(matches!(round.step(broken("timed out")), Action::Ignore));
}

#[test]
fn an_unreadable_list_ends_the_round() {
    let mut round = Round::begin();
    assert!(matches!(round.step(Event::Answered(status(200))), Action::ReadList));
    assert!(fails_with(round.step(broken("not JSON")), "not JSON"));
    assert!(matches!(round.step(Event::Listed(vec![job(11)])), Action::Ignore));
}

#[test]
fn a_granted_round_does_not_break() {
    let mut round = claimed();
    assert!(matches!(round.step(Event::Claimed(status(200))), Action::Work));
    assert!(matches!(round.step(broken("timed out")), Action::Ignore));
    assert!(matches!(round.step(Event::Done), Action::Finish));
}

#[test]
fn a_report_that_cannot_be_sent_is_passed_over() {
    let mut round = claimed();
    assert!(matches!(round.step(Event::Claimed(status(200))), Action::Work));
    let action = round.step(Event::Failed("disk full".to_string()));
    assert!(matches!(action, Action::Report(11, _)));
    assert!(matches!(round.step(broken("timed out")), Action::Finish));
    assert!(matches!(round.step(broken("timed out")), Action::Ignore));
}

#[test]
fn what_does_not_fit_is_ignored() {
    let mut round = Round::begin();
    assert!(matches!(round.step(Event::Done), Action::Ignore));
    assert!(matches!(round.step(Event::Claimed(status(200))), Action::Ignore));
    assert!(matches!(round.step(Event::Answered(status(200))), Action::ReadList));
}

#[test]
fn completion_is_judged_by_its_status() {
    assert_eq!(completion_verdict(&status(200)), Ok(()));
    assert_eq!(
        completion_verdict(&status(500)),
        Err("Failed to complete job: status=500 Internal Server Error".to_string())
    );
}
