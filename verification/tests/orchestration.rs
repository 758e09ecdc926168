use device_bringup::blink::{BlinkAction, BlinkEvent, BlinkState, Level};
use device_bringup::bringup::{Action, BringupState, Outcome};
use device_bringup::capability::Capability;
use device_bringup::config::{Config, Validation};
use device_bringup::error::{ErrorKind, FailureCause, Step};
use device_bringup::orchestrator::{BlinkRefusal, BlinkStart, Orchestrator, Settlement};

fn home() -> Config {
    Config::new("home", "secret123", "device1")
}

#[test]
fn orchestrator_keeps_the_link_alive() {
    let mut orchestrator = Orchestrator::new(BlinkStart::Immediately);
    assert!(!orchestrator.is_online());
    let mut session = orchestrator.begin_bringup(home(), Validation::Strict).unwrap();
    let mut action = session.pending();
    let mut calls = 0;
    while action != Action::Halt {
        action = orchestrator.advance(&mut session, Outcome::Succeeded);
        calls += 1;
    }
    assert_eq!(calls, 9);
    assert!(orchestrator.settle(session).is_ok());
    assert!(orchestrator.is_online());
    assert!(orchestrator.is_taken(Capability::Radio));
    assert!(orchestrator.is_taken(Capability::Storage));
    assert!(orchestrator.is_taken(Capability::EventLoop));
    assert_eq!(
        orchestrator.begin_bringup(home(), Validation::Strict).unwrap_err(),
        ErrorKind::ResourceUnavailable
    );
    assert!(orchestrator.shut_down_network());
    assert!(!orchestrator.is_online());
    assert!(!orchestrator.is_taken(Capability::Radio));
    assert!(!orchestrator.is_taken(Capability::Storage));
    assert!(!orchestrator.is_taken(Capability::EventLoop));
    assert!(!orchestrator.shut_down_network());
    assert!(orchestrator.begin_bringup(home(), Validation::Strict).is_ok());
}

#[test]
fn radio_is_claimed_once() {
    let mut orchestrator = Orchestrator::new(BlinkStart::Immediately);
    let _first = orchestrator.begin_bringup(home(), Validation::Lenient).unwrap();
    assert_eq!(
        orchestrator.begin_bringup(home(), Validation::Lenient).unwrap_err(),
        ErrorKind::ResourceUnavailable
    );
    assert!(orchestrator.is_taken(Capability::Radio));
}

#[test]
fn failed_session_is_settled_with_its_error_and_frees_the_radio() {
    let mut orchestrator = Orchestrator::new(BlinkStart::Immediately);
    let mut session = orchestrator.begin_bringup(home(), Validation::Strict).unwrap();
    orchestrator.advance(&mut session, Outcome::Succeeded);
    assert!(orchestrator.is_taken(Capability::Storage));
    orchestrator.advance(&mut session, Outcome::Succeeded);
    orchestrator.advance(&mut session, Outcome::Succeeded);
    assert_eq!(orchestrator.advance(&mut session, Outcome::Succeeded), Action::Start);
    let next = orchestrator.advance(&mut session, Outcome::Failed(FailureCause::Fault));
    assert_eq!(next, Action::Halt);
    match orchestrator.settle(session) {
        Err(Settlement::Failed(e)) => {
            assert_eq!(e.kind, ErrorKind::StartFailed);
            assert_eq!(e.step, Step::Start);
        }
        other => panic!("expected the failure, got {:?}", other),
    }
    assert!(!orchestrator.is_online());
    assert!(!orchestrator.is_taken(Capability::Radio));
    assert!(!orchestrator.is_taken(Capability::Storage));
    assert!(!orchestrator.is_taken(Capability::EventLoop));
}

#[test]
fn unfinished_session_is_not_settled() {
    let mut orchestrator = Orchestrator::new(BlinkStart::Immediately);
    let session = orchestrator.begin_bringup(home(), Validation::Strict).unwrap();
    match orchestrator.settle(session) {
        Err(Settlement::Unfinished(s)) => {
            assert_eq!(s.state(), BringupState::Idle);
            assert_eq!(s.pending(), Action::Configure);
        }
        other => panic!("expected the session back, got {:?}", other),
    }
    assert!(orchestrator.is_taken(Capability::Radio));
}

#[test]
fn blink_task_starts_at_once_by_default() {
    let mut orchestrator = Orchestrator::new(BlinkStart::Immediately);
    let failed = BringupState::Failed(device_bringup::error::BringupError::at(
        Step::Associate,
        FailureCause::ApNotFound,
    ));
    for state in [BringupState::Idle, BringupState::Started, failed, BringupState::LeaseAcquired] {
        assert!(BlinkStart::Immediately.permits(state));
    }
    let mut task = orchestrator.start_blink(8, 1000, BringupState::Idle).unwrap();
    assert_eq!(task.pin(), 8);
    assert_eq!(task.pending(), BlinkAction::Write(Level::Asserted));
    assert!(orchestrator.is_taken(Capability::Pin(8)));
    assert_eq!(
        orchestrator.start_blink(8, 1000, BringupState::Idle).unwrap_err(),
        BlinkRefusal::LineTaken
    );
    // The radio is still free: the two resources do not touch each other.
    assert!(orchestrator.begin_bringup(home(), Validation::Strict).is_ok());
    let task = orchestrator.reclaim_line(task).expect_err("the task still runs");
    task_is_running(&task);
    let mut task = task;
    task.advance(BlinkEvent::Cancel);
    task.advance(BlinkEvent::Done);
    assert!(orchestrator.reclaim_line(task).is_ok());
    assert!(!orchestrator.is_taken(Capability::Pin(8)));
    task = orchestrator.start_blink(8, 1000, BringupState::Idle).unwrap();
    assert_eq!(task.state(), BlinkState::Writing(Level::Asserted));
}

fn task_is_running(task: &device_bringup::blink::BlinkTask) {
    assert!(!task.state().ended());
}

#[test]
fn blink_task_waits_for_the_network_when_told_to() {
    let mut orchestrator = Orchestrator::new(BlinkStart::WhenOnline);
    for state in [
        BringupState::Idle,
        BringupState::InterfaceConfigured,
        BringupState::DriverConstructed,
        BringupState::ConfigurationApplied,
        BringupState::Started,
        BringupState::Associating,
        BringupState::Associated,
    ] {
        assert!(!BlinkStart::WhenOnline.permits(state));
        assert_eq!(
            orchestrator.start_blink(8, 1000, state).unwrap_err(),
            BlinkRefusal::NotOnline
        );
        assert!(!orchestrator.is_taken(Capability::Pin(8)));
    }
    assert!(BlinkStart::WhenOnline.permits(BringupState::LeaseAcquired));
    let task = orchestrator.start_blink(8, 1000, BringupState::LeaseAcquired).unwrap();
    assert_eq!(task.half_period_ms(), 500);
    assert!(orchestrator.is_taken(Capability::Pin(8)));
}
