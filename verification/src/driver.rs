//! A driver that follows a script.
//!
//! A [`Plan`] says in advance how each action of a bring-up is going to end.
//! A [`ScriptedDriver`] answers by it and keeps a record of the steps that it
//! was asked to begin. Together they stand in for a radio wherever a
//! bring-up is to be rehearsed, and the plan is what the result of a whole
//! bring-up is stated over.

use crate::bringup::{Action, Outcome};
use crate::capability::Outstanding;
use crate::config::{Config, Validation};
use crate::error::{BringupError, FailureCause, Step};
use vstd::prelude::*;

verus! {

/// How each action of a bring-up is going to end: the behaviour of a driver,
/// written down in advance.
#[derive(Clone, Copy, Debug, PartialEq, Eq, Structural)]
pub struct Plan {
    pub configure: Outcome,
    pub construct: Outcome,
    /// How binding the interface to the driver ends.
    pub bind: Outcome,
    pub apply: Outcome,
    pub start: Outcome,
    /// How the request to associate ends.
    pub associate: Outcome,
    /// What the radio reports of the association.
    pub association: Outcome,
    pub wait_up: Outcome,
    pub read_back: Outcome,
}

/// A driver that follows a plan and keeps a record of the steps that it was
/// asked to begin, in the order of the calls.
#[derive(Debug)]
pub struct ScriptedDriver {
    plan: Plan,
    record: Vec<Step>,
}

impl Plan {
    /// How the given action ends under this plan.
    pub open spec fn answer(self, action: Action) -> Outcome {
        match action {
            Action::Configure => self.configure,
            Action::Construct => self.construct,
            Action::Bind => self.bind,
            Action::Apply => self.apply,
            Action::Start => self.start,
            Action::Associate => self.associate,
            Action::AwaitAssociation => self.association,
            Action::WaitUp => self.wait_up,
            Action::ReadBack => self.read_back,
            Action::Halt => Outcome::Succeeded,
        }
    }

    /// The plan under which every action succeeds.
    pub open spec fn smooth() -> Plan {
        Plan {
            configure: Outcome::Succeeded,
            construct: Outcome::Succeeded,
            bind: Outcome::Succeeded,
            apply: Outcome::Succeeded,
            start: Outcome::Succeeded,
            associate: Outcome::Succeeded,
            association: Outcome::Succeeded,
            wait_up: Outcome::Succeeded,
            read_back: Outcome::Succeeded,
        }
    }

    /// The plan under which every action succeeds.
    pub fn all_succeed() -> (p: Plan)
        ensures
            p == Plan::smooth(),
    {
        Plan {
            configure: Outcome::Succeeded,
            construct: Outcome::Succeeded,
            bind: Outcome::Succeeded,
            apply: Outcome::Succeeded,
            start: Outcome::Succeeded,
            associate: Outcome::Succeeded,
            association: Outcome::Succeeded,
            wait_up: Outcome::Succeeded,
            read_back: Outcome::Succeeded,
        }
    }

    /// How the given action ends under this plan.
    pub fn reply(&self, action: Action) -> (r: Outcome)
        ensures
            r == self.answer(action),
    {
        match action {
            Action::Configure => self.configure,
            Action::Construct => self.construct,
            Action::Bind => self.bind,
            Action::Apply => self.apply,
            Action::Start => self.start,
            Action::Associate => self.associate,
            Action::AwaitAssociation => self.association,
            Action::WaitUp => self.wait_up,
            Action::ReadBack => self.read_back,
            Action::Halt => Outcome::Succeeded,
        }
    }

    /// The first failure of a bring-up that meets this plan, or `None` if it
    /// brings the device online. The checks come in the order in which a
    /// session makes them.
    pub open spec fn first_failure(
        self,
        config: Config,
        validation: Validation,
        reg: Outstanding,
    ) -> Option<BringupError> {
        if !config.admitted(validation) {
            Some(BringupError::make(Step::Configure, FailureCause::EmptyCredentials))
        } else if !config.hostname_fits() {
            Some(BringupError::make(Step::Configure, FailureCause::NotRepresentable))
        } else if let Outcome::Failed(c) = self.configure {
            Some(BringupError::make(Step::Configure, c))
        } else if reg.storage || reg.event_loop {
            Some(BringupError::make(Step::Construct, FailureCause::ResourceTaken))
        } else if let Outcome::Failed(c) = self.construct {
            Some(BringupError::make(Step::Construct, c))
        } else if let Outcome::Failed(c) = self.bind {
            Some(BringupError::make(Step::Construct, c))
        } else if !config.credentials_fit() {
            Some(BringupError::make(Step::Apply, FailureCause::NotRepresentable))
        } else if let Outcome::Failed(c) = self.apply {
            Some(BringupError::make(Step::Apply, c))
        } else if let Outcome::Failed(c) = self.start {
            Some(BringupError::make(Step::Start, c))
        } else if let Outcome::Failed(c) = self.associate {
            Some(BringupError::make(Step::Associate, c))
        } else if let Outcome::Failed(c) = self.association {
            Some(BringupError::make(Step::Associate, c))
        } else if let Outcome::Failed(c) = self.wait_up {
            Some(BringupError::make(Step::WaitUp, c))
        } else {
            None
        }
    }

    /// The number of steps that a bring-up which meets this plan asks the
    /// driver to begin.
    pub open spec fn steps_begun(
        self,
        config: Config,
        validation: Validation,
        reg: Outstanding,
    ) -> nat {
        if !config.admitted(validation) || !config.hostname_fits() {
            0
        } else if self.configure is Failed || reg.storage || reg.event_loop {
            1
        } else if self.construct is Failed || self.bind is Failed || !config.credentials_fit() {
            2
        } else if self.apply is Failed {
            3
        } else if self.start is Failed {
            4
        } else if self.associate is Failed || self.association is Failed {
            5
        } else {
            6
        }
    }
}

impl ScriptedDriver {
    /// The plan that the driver follows.
    pub closed spec fn plan(&self) -> Plan {
        self.plan
    }

    /// The steps that the driver was asked to begin, oldest first.
    pub closed spec fn log(&self) -> Seq<Step> {
        self.record@
    }

    /// A driver that follows the given plan and has not been called yet.
    pub fn new(plan: Plan) -> (d: ScriptedDriver)
        ensures
            d.plan() == plan,
            d.log() == Seq::<Step>::empty(),
    {
        ScriptedDriver { plan, record: Vec::new() }
    }

    /// Carries out an action: notes the step that it begins, if any, and
    /// answers as the plan says.
    pub fn perform(&mut self, action: Action) -> (r: Outcome)
        ensures
            final(self).plan() == old(self).plan(),
            r == old(self).plan().answer(action),
            final(self).log() == match action.begins() {
                Some(step) => old(self).log().push(step),
                None => old(self).log(),
            },
    {
        match action.step_begun() {
            Some(step) => {
                self.record.push(step);
            },
            None => {},
        }
        self.plan.reply(action)
    }

    /// The steps that the driver was asked to begin, oldest first.
    pub fn steps(&self) -> (r: &Vec<Step>)
        ensures
            r@ == self.log(),
    {
        &self.record
    }
}

} // verus!
