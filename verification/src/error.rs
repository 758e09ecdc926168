//! The steps of a bring-up and the failures that end one.

use vstd::prelude::*;

verus! {

/// One step of the bring-up sequence. Steps are carried out in the order in
/// which they are declared, and each is begun only once the one before it has
/// succeeded.
#[derive(Clone, Copy, Debug, PartialEq, Eq, Structural)]
pub enum Step {
    /// Build the interface configuration: client mode, DHCP, the hostname.
    Configure,
    /// Bind the radio and the interface configuration into a driver.
    Construct,
    /// Hand SSID and key to the driver.
    Apply,
    /// Start the radio.
    Start,
    /// Join the access point.
    Associate,
    /// Wait until the interface is up, that is until DHCP has given a lease.
    WaitUp,
}

/// The class of a bring-up failure.
#[derive(Clone, Copy, Debug, PartialEq, Eq, Structural)]
pub enum ErrorKind {
    /// The configuration is unusable: a value is missing or cannot be encoded.
    ConfigurationError,
    /// A singleton resource is already held elsewhere.
    ResourceUnavailable,
    /// The driver could not be built for another reason.
    DriverConstructionFailed,
    /// The radio did not start.
    StartFailed,
    /// The access point could not be joined.
    AssociationFailed,
    /// No lease arrived in time.
    LeaseTimeout,
}

/// Why a step failed, as far as the party that noticed the failure can tell.
#[derive(Clone, Copy, Debug, PartialEq, Eq, Structural)]
pub enum FailureCause {
    /// SSID or key is empty although both are demanded.
    EmptyCredentials,
    /// A string is too long for the field that has to hold it.
    NotRepresentable,
    /// A singleton resource is held by someone else.
    ResourceTaken,
    /// The access point refused the key.
    BadCredentials,
    /// No access point with the configured SSID answered.
    ApNotFound,
    /// The wait ran out.
    TimedOut,
    /// Any other fault that the driver reports.
    Fault,
}

/// A bring-up failure: its class, the step at which it happened and the cause.
#[derive(Clone, Copy, Debug, PartialEq, Eq, Structural)]
pub struct BringupError {
    pub kind: ErrorKind,
    pub step: Step,
    pub cause: FailureCause,
}

impl Step {
    /// The number of steps.
    pub const COUNT: usize = 6;

    /// Position of the step in the sequence, counted from zero.
    pub open spec fn index(self) -> nat {
        match self {
            Step::Configure => 0,
            Step::Construct => 1,
            Step::Apply => 2,
            Step::Start => 3,
            Step::Associate => 4,
            Step::WaitUp => 5,
        }
    }

    /// The sequence of all steps, in the order in which they are carried out.
    pub open spec fn order() -> Seq<Step> {
        seq![
            Step::Configure,
            Step::Construct,
            Step::Apply,
            Step::Start,
            Step::Associate,
            Step::WaitUp,
        ]
    }

    /// Position of the step in the sequence, counted from zero.
    pub fn position(self) -> (r: usize)
        ensures
            r == self.index(),
            r < Step::COUNT,
            Step::order()[r as int] == self,
    {
        match self {
            Step::Configure => 0,
            Step::Construct => 1,
            Step::Apply => 2,
            Step::Start => 3,
            Step::Associate => 4,
            Step::WaitUp => 5,
        }
    }

    /// The step at a position, if there is one.
    pub fn at_position(i: usize) -> (r: Option<Step>)
        ensures
            i < Step::COUNT ==> r == Some(Step::order()[i as int]),
            i >= Step::COUNT ==> r is None,
            r matches Some(s) ==> s.index() == i,
    {
        match i {
            0 => Some(Step::Configure),
            1 => Some(Step::Construct),
            2 => Some(Step::Apply),
            3 => Some(Step::Start),
            4 => Some(Step::Associate),
            5 => Some(Step::WaitUp),
            _ => None,
        }
    }

    /// All steps, in the order in which they are carried out.
    pub fn sequence() -> (v: Vec<Step>)
        ensures
            v@ == Step::order(),
    {
        let mut v: Vec<Step> = Vec::new();
        v.push(Step::Configure);
        v.push(Step::Construct);
        v.push(Step::Apply);
        v.push(Step::Start);
        v.push(Step::Associate);
        v.push(Step::WaitUp);
        assert(v@ =~= Step::order());
        v
    }
}

impl BringupError {
    /// The class of a failure with the given cause at the given step.
    ///
    /// Only the construction of the driver has two classes: it fails as
    /// `ResourceUnavailable` when a singleton is held elsewhere and as
    /// `DriverConstructionFailed` otherwise. `Configure` and `Apply` work on
    /// the configuration alone, so whatever fails there is a configuration
    /// error.
    pub open spec fn classify(step: Step, cause: FailureCause) -> ErrorKind {
        match step {
            Step::Configure => ErrorKind::ConfigurationError,
            Step::Construct => if cause == FailureCause::ResourceTaken {
                ErrorKind::ResourceUnavailable
            } else {
                ErrorKind::DriverConstructionFailed
            },
            Step::Apply => ErrorKind::ConfigurationError,
            Step::Start => ErrorKind::StartFailed,
            Step::Associate => ErrorKind::AssociationFailed,
            Step::WaitUp => ErrorKind::LeaseTimeout,
        }
    }

    /// The failure with the given cause at the given step.
    pub open spec fn make(step: Step, cause: FailureCause) -> BringupError {
        BringupError { kind: Self::classify(step, cause), step, cause }
    }

    /// The error's class is the one that its step and cause call for.
    pub open spec fn wf(self) -> bool {
        self.kind == Self::classify(self.step, self.cause)
    }

    /// The failure with the given cause at the given step.
    pub fn at(step: Step, cause: FailureCause) -> (e: BringupError)
        ensures
            e == Self::make(step, cause),
            e.wf(),
    {
        let kind = match step {
            Step::Configure => ErrorKind::ConfigurationError,
            Step::Construct => match cause {
                FailureCause::ResourceTaken => ErrorKind::ResourceUnavailable,
                _ => ErrorKind::DriverConstructionFailed,
            },
            Step::Apply => ErrorKind::ConfigurationError,
            Step::Start => ErrorKind::StartFailed,
            Step::Associate => ErrorKind::AssociationFailed,
            Step::WaitUp => ErrorKind::LeaseTimeout,
        };
        BringupError { kind, step, cause }
    }

    /// Whether the caller may try the whole bring-up again with the same
    /// configuration: only a failed association is of that class.
    pub fn is_retryable(&self) -> (r: bool)
        ensures
            r == (self.kind == ErrorKind::AssociationFailed),
    {
        match self.kind {
            ErrorKind::AssociationFailed => true,
            _ => false,
        }
    }
}

/// Every well-formed error has the one class that belongs to its step: a
/// configuration error comes from `Configure` or `Apply`, the two driver
/// construction classes from `Construct`, and each later step has a class of
/// its own.
pub proof fn law_kind_names_step(e: BringupError)
    requires
        e.wf(),
    ensures
        e.kind == ErrorKind::ConfigurationError <==> (e.step == Step::Configure || e.step
            == Step::Apply),
        e.kind == ErrorKind::ResourceUnavailable <==> (e.step == Step::Construct && e.cause
            == FailureCause::ResourceTaken),
        e.kind == ErrorKind::DriverConstructionFailed <==> (e.step == Step::Construct && e.cause
            != FailureCause::ResourceTaken),
        e.kind == ErrorKind::StartFailed <==> e.step == Step::Start,
        e.kind == ErrorKind::AssociationFailed <==> e.step == Step::Associate,
        e.kind == ErrorKind::LeaseTimeout <==> e.step == Step::WaitUp,
{
}

} // verus!
