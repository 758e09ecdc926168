use device_bringup::blink::{BlinkAction, BlinkEvent, BlinkState, BlinkTask, Level, PinFault};
use device_bringup::capability::Registry;

fn task(period_ms: u64) -> BlinkTask {
    let mut registry = Registry::new();
    BlinkTask::start(registry.take_pin(8).unwrap(), period_ms)
}

/// Lets the task complete `actions` actions and adds up how long the line is
/// held at each level meanwhile.
fn run(task: &mut BlinkTask, actions: usize) -> (u64, u64, Vec<BlinkAction>) {
    let mut asserted = 0u64;
    let mut deasserted = 0u64;
    let mut seen = Vec::new();
    for _ in 0..actions {
        let action = task.pending();
        seen.push(action);
        if let BlinkAction::Hold { level, millis } = action {
            match level {
                Level::Asserted => asserted += millis,
                Level::Deasserted => deasserted += millis,
            }
        }
        task.advance(BlinkEvent::Done);
    }
    (asserted, deasserted, seen)
}

#[test]
fn task_starts_by_asserting_its_line() {
    let t = task(1000);
    assert_eq!(t.pin(), 8);
    assert_eq!(t.state(), BlinkState::Writing(Level::Asserted));
    assert_eq!(t.pending(), BlinkAction::Write(Level::Asserted));
    assert_eq!(t.level(), None);
    assert_eq!(t.half_period_ms(), 500);
}

#[test]
fn one_period_is_on_hold_off_hold() {
    let mut t = task(1000);
    let (_, _, seen) = run(&mut t, 4);
    assert_eq!(
        seen,
        vec![
            BlinkAction::Write(Level::Asserted),
            BlinkAction::Hold { level: Level::Asserted, millis: 500 },
            BlinkAction::Write(Level::Deasserted),
            BlinkAction::Hold { level: Level::Deasserted, millis: 500 },
        ]
    );
    assert_eq!(t.state(), BlinkState::Writing(Level::Asserted));
    assert_eq!(t.level(), Some(Level::Deasserted));
}

#[test]
fn each_level_gets_half_of_every_window_of_full_periods() {
    for periods in [0usize, 1, 2, 7, 100] {
        for offset in 0..4usize {
            let mut t = task(500);
            run(&mut t, offset);
            let begun_in = t.state();
            let (asserted, deasserted, _) = run(&mut t, 4 * periods);
            assert_eq!(asserted, periods as u64 * 250);
            assert_eq!(deasserted, periods as u64 * 250);
            assert_eq!(t.state(), begun_in);
        }
    }
}

#[test]
fn odd_period_holds_each_level_for_the_whole_milliseconds_of_its_half() {
    let mut t = task(501);
    assert_eq!(t.half_period_ms(), 250);
    let (asserted, deasserted, _) = run(&mut t, 12);
    assert_eq!((asserted, deasserted), (750, 750));
    assert_eq!(task(1).half_period_ms(), 0);
    assert_eq!(task(0).half_period_ms(), 0);
    assert_eq!(task(u64::MAX).half_period_ms(), u64::MAX / 2);
}

#[test]
fn cancelled_after_three_periods_the_line_rests_and_is_written_no_more() {
    let mut t = task(500);
    let (asserted, deasserted, _) = run(&mut t, 12);
    assert_eq!((asserted, deasserted), (750, 750));
    assert_eq!(t.advance(BlinkEvent::Cancel), BlinkAction::Write(Level::Deasserted));
    assert_eq!(t.state(), BlinkState::Parking);
    assert_eq!(t.advance(BlinkEvent::Done), BlinkAction::Halt);
    assert_eq!(t.state(), BlinkState::Cancelled);
    assert_eq!(t.level(), Some(Level::Deasserted));
    for event in [
        BlinkEvent::Done,
        BlinkEvent::Cancel,
        BlinkEvent::Done,
        BlinkEvent::WriteFailed(PinFault { code: 1 }),
        BlinkEvent::Done,
    ] {
        assert_eq!(t.advance(event), BlinkAction::Halt);
        assert_eq!(t.state(), BlinkState::Cancelled);
        assert_eq!(t.level(), Some(Level::Deasserted));
    }
    assert!(t.state().ended());
}

#[test]
fn cancelled_while_asserted_the_line_is_parked_deasserted() {
    let mut t = task(500);
    run(&mut t, 1);
    assert_eq!(t.state(), BlinkState::Holding(Level::Asserted));
    assert_eq!(t.level(), Some(Level::Asserted));
    assert_eq!(t.advance(BlinkEvent::Cancel), BlinkAction::Write(Level::Deasserted));
    assert_eq!(t.level(), Some(Level::Asserted));
    assert_eq!(t.advance(BlinkEvent::Cancel), BlinkAction::Write(Level::Deasserted));
    assert_eq!(t.advance(BlinkEvent::Done), BlinkAction::Halt);
    assert_eq!(t.level(), Some(Level::Deasserted));
}

#[test]
fn failed_write_aborts_the_task_and_is_remembered() {
    let mut t = task(500);
    run(&mut t, 2);
    let fault = PinFault { code: -7 };
    assert_eq!(t.advance(BlinkEvent::WriteFailed(fault)), BlinkAction::Halt);
    assert_eq!(t.state(), BlinkState::Aborted(fault));
    assert!(t.state().ended());
    assert_eq!(t.advance(BlinkEvent::Done), BlinkAction::Halt);
    assert_eq!(t.advance(BlinkEvent::Cancel), BlinkAction::Halt);
    assert_eq!(t.state(), BlinkState::Aborted(fault));
    assert_eq!(t.level(), Some(Level::Asserted));
}

#[test]
fn failed_parking_write_aborts_too() {
    let mut t = task(500);
    t.advance(BlinkEvent::Cancel);
    let fault = PinFault { code: 3 };
    assert_eq!(t.advance(BlinkEvent::WriteFailed(fault)), BlinkAction::Halt);
    assert_eq!(t.state(), BlinkState::Aborted(fault));
}

#[test]
fn line_comes_back_only_from_a_task_that_has_ended() {
    let mut t = task(500);
    run(&mut t, 3);
    let mut t = t.release().expect_err("a running task keeps its line");
    assert_eq!(t.state(), BlinkState::Holding(Level::Deasserted));
    t.advance(BlinkEvent::Cancel);
    let mut t = t.release().expect_err("a parking task keeps its line");
    t.advance(BlinkEvent::Done);
    let pin = t.release().expect("a cancelled task gives its line back");
    assert_eq!(pin.pin(), 8);
}

#[test]
fn levels_toggle() {
    assert_eq!(Level::Asserted.toggle(), Level::Deasserted);
    assert_eq!(Level::Deasserted.toggle(), Level::Asserted);
    assert!(!BlinkState::Parking.ended());
    assert!(!BlinkState::Writing(Level::Asserted).ended());
}
