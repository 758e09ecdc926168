use device_bringup::error::{BringupError, ErrorKind, FailureCause, Step};

const CAUSES: [FailureCause; 7] = [
    FailureCause::EmptyCredentials,
    FailureCause::NotRepresentable,
    FailureCause::ResourceTaken,
    FailureCause::BadCredentials,
    FailureCause::ApNotFound,
    FailureCause::TimedOut,
    FailureCause::Fault,
];

#[test]
fn steps_are_numbered_in_sequence_order() {
    let steps = Step::sequence();
    assert_eq!(
        steps,
        vec![
            Step::Configure,
            Step::Construct,
            Step::Apply,
            Step::Start,
            Step::Associate,
            Step::WaitUp
        ]
    );
    assert_eq!(steps.len(), Step::COUNT);
    for (i, step) in steps.iter().enumerate() {
        assert_eq!(step.position(), i);
        assert_eq!(Step::at_position(i), Some(*step));
    }
    assert_eq!(Step::at_position(6), None);
    assert_eq!(Step::at_position(usize::MAX), None);
}

#[test]
fn each_step_has_its_class() {
    for cause in CAUSES {
        assert_eq!(BringupError::at(Step::Configure, cause).kind, ErrorKind::ConfigurationError);
        assert_eq!(BringupError::at(Step::Apply, cause).kind, ErrorKind::ConfigurationError);
        assert_eq!(BringupError::at(Step::Start, cause).kind, ErrorKind::StartFailed);
        assert_eq!(BringupError::at(Step::Associate, cause).kind, ErrorKind::AssociationFailed);
        assert_eq!(BringupError::at(Step::WaitUp, cause).kind, ErrorKind::LeaseTimeout);
        let built = BringupError::at(Step::Construct, cause);
        if cause == FailureCause::ResourceTaken {
            assert_eq!(built.kind, ErrorKind::ResourceUnavailable);
        } else {
            assert_eq!(built.kind, ErrorKind::DriverConstructionFailed);
        }
        assert_eq!(built.step, Step::Construct);
        assert_eq!(built.cause, cause);
    }
}

#[test]
fn only_a_failed_association_is_retryable() {
    for step in Step::sequence() {
        for cause in CAUSES {
            let error = BringupError::at(step, cause);
            assert_eq!(error.is_retryable(), step == Step::Associate);
        }
    }
}
