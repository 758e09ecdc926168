//! The bring-up of the wireless link.
//!
//! A bring-up is a fixed sequence of steps, each of which may fail. The
//! session in this module decides what is done next and what a failure means;
//! it never touches the hardware. Whoever drives it carries out the pending
//! action, reports how it ended with [`Bringup::advance`], and repeats that
//! until nothing is pending. A blocking caller and a cooperative one drive the
//! same session and therefore go through the same steps in the same order;
//! in particular both wait for the lease, since a session comes online in no
//! other way.
//!
//! ```text
//! Idle -> DriverConstructed -> InterfaceConfigured -> ConfigurationApplied
//!      -> Started -> Associating -> Associated -> LeaseAcquired
//! ```
//!
//! Every state but the last can give way to `Failed` instead. The states
//! name what exists on the device. Building the interface configuration
//! creates nothing there, so a session stays `Idle` across its first step;
//! the construction of the driver and the association each pass through a
//! state of their own before they are complete.

use crate::capability::{
    Capability, EventLoopHandle, Outstanding, RadioPeripheral, Registry, StoragePartition,
};
use crate::config::{Config, Validation};
use crate::driver::{Plan, ScriptedDriver};
use crate::error::{BringupError, FailureCause, Step};
use vstd::prelude::*;

verus! {

/// How far a bring-up has come.
#[derive(Clone, Copy, Debug, PartialEq, Eq, Structural)]
pub enum BringupState {
    /// No driver exists. The interface configuration is being built or, once
    /// that is done, the driver is being constructed from the radio.
    Idle,
    /// The driver exists; the interface is being bound to it.
    DriverConstructed,
    /// The interface is bound with its configuration; the credentials are
    /// being applied.
    InterfaceConfigured,
    /// The driver knows SSID and key; the radio is being started.
    ConfigurationApplied,
    /// The radio runs; the request to associate is being made.
    Started,
    /// The request to associate was accepted; the radio's report is awaited.
    Associating,
    /// The access point has been joined; the lease is awaited.
    Associated,
    /// The interface is up and holds a lease: the device is online.
    LeaseAcquired,
    /// The bring-up has ended with the given failure.
    Failed(BringupError),
}

/// How an action ended.
#[derive(Clone, Copy, Debug, PartialEq, Eq, Structural)]
pub enum Outcome {
    Succeeded,
    Failed(FailureCause),
}

/// What the driver of a session has to do next.
#[derive(Clone, Copy, Debug, PartialEq, Eq, Structural)]
pub enum Action {
    /// Build the interface configuration with the configured hostname.
    Configure,
    /// Construct the driver from the radio, the event loop and the storage
    /// partition.
    Construct,
    /// Bind the interface, with its configuration, to the driver.
    Bind,
    /// Hand SSID and key to the driver.
    Apply,
    /// Start the radio and wait until it reports that it runs.
    Start,
    /// Ask the radio to associate.
    Associate,
    /// Wait for the radio to report whether the association succeeded.
    AwaitAssociation,
    /// Wait until the interface is up.
    WaitUp,
    /// Read the address and hostname that were assigned, for the log.
    ReadBack,
    /// Nothing is left to do.
    Halt,
}

/// What became of the diagnostic read that follows a successful bring-up.
#[derive(Clone, Copy, Debug, PartialEq, Eq, Structural)]
pub enum Diagnostics {
    /// The read has not been attempted.
    NotRead,
    /// The assigned address and hostname were read.
    Available,
    /// The read failed. This does not undo the bring-up.
    Unavailable,
}

impl BringupState {
    /// The state admits no further transition.
    pub open spec fn is_terminal(self) -> bool {
        self is LeaseAcquired || self is Failed
    }

    /// Whether the state admits no further transition.
    pub fn terminal(&self) -> (r: bool)
        ensures
            r == self.is_terminal(),
    {
        match self {
            BringupState::LeaseAcquired => true,
            BringupState::Failed(_) => true,
            _ => false,
        }
    }

    /// Whether the device is online.
    pub fn online(&self) -> (r: bool)
        ensures
            r == (*self is LeaseAcquired),
    {
        match self {
            BringupState::LeaseAcquired => true,
            _ => false,
        }
    }
}

impl Action {
    /// The step that the action begins, if it begins one. Binding the
    /// interface continues the construction of the driver, waiting for the
    /// radio's report continues the association, and the diagnostic read
    /// belongs to no step.
    pub open spec fn begins(self) -> Option<Step> {
        match self {
            Action::Configure => Some(Step::Configure),
            Action::Construct => Some(Step::Construct),
            Action::Bind => None,
            Action::Apply => Some(Step::Apply),
            Action::Start => Some(Step::Start),
            Action::Associate => Some(Step::Associate),
            Action::AwaitAssociation => None,
            Action::WaitUp => Some(Step::WaitUp),
            Action::ReadBack => None,
            Action::Halt => None,
        }
    }

    /// The step that the action begins, if it begins one.
    pub fn step_begun(self) -> (r: Option<Step>)
        ensures
            r == self.begins(),
    {
        match self {
            Action::Configure => Some(Step::Configure),
            Action::Construct => Some(Step::Construct),
            Action::Bind => None,
            Action::Apply => Some(Step::Apply),
            Action::Start => Some(Step::Start),
            Action::Associate => Some(Step::Associate),
            Action::AwaitAssociation => None,
            Action::WaitUp => Some(Step::WaitUp),
            Action::ReadBack => None,
            Action::Halt => None,
        }
    }

    /// Whether the action suspends its caller until the hardware or the
    /// network reports back. The other actions are local and return at once.
    pub fn suspends(self) -> (r: bool)
        ensures
            r == (self == Action::Start || self == Action::AwaitAssociation || self
                == Action::WaitUp),
    {
        match self {
            Action::Start => true,
            Action::AwaitAssociation => true,
            Action::WaitUp => true,
            _ => false,
        }
    }
}

/// The mathematical model of a session: what it was given, how far it has
/// come and which steps it has handed out.
pub struct Session {
    pub config: Config,
    pub validation: Validation,
    pub state: BringupState,
    /// The steps handed out so far, oldest first.
    pub issued: Seq<Step>,
    pub diagnostics: Diagnostics,
}

impl Session {
    /// The session right after it was begun. A configuration that is not
    /// admitted, or whose hostname cannot be encoded, fails here, before any
    /// step is handed out.
    pub open spec fn opening(config: Config, validation: Validation) -> Session {
        if !config.admitted(validation) {
            Session {
                config,
                validation,
                state: BringupState::Failed(
                    BringupError::make(Step::Configure, FailureCause::EmptyCredentials),
                ),
                issued: Seq::empty(),
                diagnostics: Diagnostics::NotRead,
            }
        } else if !config.hostname_fits() {
            Session {
                config,
                validation,
                state: BringupState::Failed(
                    BringupError::make(Step::Configure, FailureCause::NotRepresentable),
                ),
                issued: Seq::empty(),
                diagnostics: Diagnostics::NotRead,
            }
        } else {
            Session {
                config,
                validation,
                state: BringupState::Idle,
                issued: seq![Step::Configure],
                diagnostics: Diagnostics::NotRead,
            }
        }
    }

    /// The action that is to be carried out now.
    pub open spec fn pending(self) -> Action {
        match self.state {
            BringupState::Idle => if self.issued.len() <= 1 {
                Action::Configure
            } else {
                Action::Construct
            },
            BringupState::DriverConstructed => Action::Bind,
            BringupState::InterfaceConfigured => Action::Apply,
            BringupState::ConfigurationApplied => Action::Start,
            BringupState::Started => Action::Associate,
            BringupState::Associating => Action::AwaitAssociation,
            BringupState::Associated => Action::WaitUp,
            BringupState::LeaseAcquired => if self.diagnostics == Diagnostics::NotRead {
                Action::ReadBack
            } else {
                Action::Halt
            },
            BringupState::Failed(_) => Action::Halt,
        }
    }

    /// The step that is under way, if any.
    pub open spec fn step(self) -> Option<Step> {
        match self.state {
            BringupState::Idle => if self.issued.len() <= 1 {
                Some(Step::Configure)
            } else {
                Some(Step::Construct)
            },
            BringupState::DriverConstructed => Some(Step::Construct),
            BringupState::InterfaceConfigured => Some(Step::Apply),
            BringupState::ConfigurationApplied => Some(Step::Start),
            BringupState::Started => Some(Step::Associate),
            BringupState::Associating => Some(Step::Associate),
            BringupState::Associated => Some(Step::WaitUp),
            BringupState::LeaseAcquired => None,
            BringupState::Failed(_) => None,
        }
    }

    /// The number of steps that are known to have succeeded.
    pub open spec fn confirmed(self) -> nat {
        match self.state {
            BringupState::Idle => if self.issued.len() <= 1 {
                0
            } else {
                1
            },
            BringupState::DriverConstructed => 1,
            BringupState::InterfaceConfigured => 2,
            BringupState::ConfigurationApplied => 3,
            BringupState::Started => 4,
            BringupState::Associating => 4,
            BringupState::Associated => 5,
            BringupState::LeaseAcquired => 6,
            BringupState::Failed(e) => e.step.index(),
        }
    }

    /// Nothing is pending.
    pub open spec fn finished(self) -> bool {
        self.pending() == Action::Halt
    }

    /// The session holds the storage partition and the event loop. It takes
    /// them right before it hands out `Construct`.
    pub open spec fn holds_singletons(self) -> bool {
        self.issued.len() >= 2
    }

    /// The same session, failed at the given step.
    pub open spec fn failed_at(self, step: Step, cause: FailureCause) -> Session {
        Session { state: BringupState::Failed(BringupError::make(step, cause)), ..self }
    }

    /// The same session in the given state, with no step handed out.
    pub open spec fn moved_to(self, state: BringupState) -> Session {
        Session { state, ..self }
    }

    /// The same session in the given state, with the given step handed out.
    pub open spec fn issuing(self, state: BringupState, step: Step) -> Session {
        Session { state, issued: self.issued.push(step), ..self }
    }

    /// The same session with the diagnostic read settled, if it was open.
    pub open spec fn read_back(self, result: Diagnostics) -> Session {
        if self.diagnostics == Diagnostics::NotRead {
            Session { diagnostics: result, ..self }
        } else {
            self
        }
    }

    /// The transition: the session and the outstanding capabilities after the
    /// pending action has ended with `outcome`.
    ///
    /// * A failure of any step ends the bring-up with that step's error.
    /// * Before `Construct` is handed out the session takes the storage
    ///   partition and the event loop; if either is outstanding the bring-up
    ///   fails as `ResourceUnavailable` and nothing is taken.
    /// * Before `Apply` is handed out SSID and key must fit the driver's
    ///   fields; if they do not, the bring-up fails there.
    /// * Once the device is online only the diagnostic read is left, and its
    ///   failure changes nothing but the note that is kept of it.
    /// * A session that has ended stays as it is.
    pub open spec fn after(self, reg: Outstanding, outcome: Outcome) -> (Session, Outstanding) {
        match self.state {
            BringupState::Failed(_) => (self, reg),
            BringupState::LeaseAcquired => match outcome {
                Outcome::Succeeded => (self.read_back(Diagnostics::Available), reg),
                Outcome::Failed(_) => (self.read_back(Diagnostics::Unavailable), reg),
            },
            state => match outcome {
                Outcome::Failed(cause) => (self.failed_at(self.step().unwrap(), cause), reg),
                Outcome::Succeeded => match state {
                    BringupState::Idle => if self.issued.len() > 1 {
                        (self.moved_to(BringupState::DriverConstructed), reg)
                    } else if reg.storage || reg.event_loop {
                        (self.failed_at(Step::Construct, FailureCause::ResourceTaken), reg)
                    } else {
                        (
                            self.issuing(BringupState::Idle, Step::Construct),
                            reg.with(Capability::Storage).with(Capability::EventLoop),
                        )
                    },
                    BringupState::DriverConstructed => if !self.config.credentials_fit() {
                        (self.failed_at(Step::Apply, FailureCause::NotRepresentable), reg)
                    } else {
                        (self.issuing(BringupState::InterfaceConfigured, Step::Apply), reg)
                    },
                    BringupState::InterfaceConfigured => (
                        self.issuing(BringupState::ConfigurationApplied, Step::Start),
                        reg,
                    ),
                    BringupState::ConfigurationApplied => (
                        self.issuing(BringupState::Started, Step::Associate),
                        reg,
                    ),
                    BringupState::Started => (self.moved_to(BringupState::Associating), reg),
                    BringupState::Associating => (
                        self.issuing(BringupState::Associated, Step::WaitUp),
                        reg,
                    ),
                    _ => (self.moved_to(BringupState::LeaseAcquired), reg),
                },
            },
        }
    }

    /// The invariant of every session.
    ///
    /// The steps handed out are the first steps of the sequence, in order and
    /// without a gap, and there is at most one more of them than have
    /// succeeded: the step under way, or the one that failed. A failure that
    /// the session found itself, before handing the step out, leaves that
    /// step out.
    pub open spec fn wf(self) -> bool {
        &&& self.issued.len() <= Step::COUNT
        &&& self.issued == Step::order().take(self.issued.len() as int)
        &&& self.confirmed() <= self.issued.len() <= self.confirmed() + 1
        &&& (self.step() matches Some(s) ==> self.issued.len() == s.index() + 1)
        &&& (self.state matches BringupState::Failed(e) ==> e.wf())
        &&& (self.diagnostics != Diagnostics::NotRead ==> self.state is LeaseAcquired)
    }
}

/// A running bring-up. It owns the radio from the start and the storage
/// partition and event loop from the construction of the driver on.
#[derive(Debug)]
pub struct Bringup {
    config: Config,
    validation: Validation,
    state: BringupState,
    issued: Vec<Step>,
    diagnostics: Diagnostics,
    radio: RadioPeripheral,
    storage: Option<StoragePartition>,
    event_loop: Option<EventLoopHandle>,
}

/// The live wireless link: an associated client interface that is up and
/// holds a lease. It owns the radio, the storage partition and the event
/// loop; while it lives, none of them can be taken again.
#[derive(Debug)]
pub struct NetworkHandle {
    radio: RadioPeripheral,
    storage: StoragePartition,
    event_loop: EventLoopHandle,
    link_up: bool,
    leased: bool,
    diagnostics: Diagnostics,
}

/// What a session comes to when its driver asks for the result.
#[derive(Debug)]
pub enum Conclusion {
    /// The device is online.
    Online(NetworkHandle),
    /// The bring-up failed; what it held has gone back to the registry.
    Failed(BringupError),
    /// An action is still pending. The session is handed back unchanged.
    Unfinished(Bringup),
}

impl View for Bringup {
    type V = Session;

    closed spec fn view(&self) -> Session {
        Session {
            config: self.config,
            validation: self.validation,
            state: self.state,
            issued: self.issued@,
            diagnostics: self.diagnostics,
        }
    }
}

impl NetworkHandle {
    /// The interface reports that it is up.
    pub closed spec fn up(&self) -> bool {
        self.link_up
    }

    /// The interface holds a lease.
    pub closed spec fn lease_held(&self) -> bool {
        self.leased
    }

    /// What became of the diagnostic read.
    pub closed spec fn diagnostics_read(&self) -> Diagnostics {
        self.diagnostics
    }

    /// Whether the interface reports that it is up.
    pub fn is_up(&self) -> (r: bool)
        ensures
            r == self.up(),
    {
        self.link_up
    }

    /// Whether the interface holds a lease.
    pub fn has_lease(&self) -> (r: bool)
        ensures
            r == self.lease_held(),
    {
        self.leased
    }

    /// What became of the diagnostic read.
    pub fn diagnostics(&self) -> (r: Diagnostics)
        ensures
            r == self.diagnostics_read(),
    {
        self.diagnostics
    }

    /// Takes the link down and gives radio, storage partition and event loop
    /// back to the registry.
    pub fn teardown(self, registry: &mut Registry)
        requires
            old(registry).wf(),
        ensures
            final(registry).wf(),
            final(registry)@ == old(registry)@.without(Capability::Radio).without(
                Capability::Storage,
            ).without(Capability::EventLoop),
    {
        let NetworkHandle { radio, storage, event_loop, link_up: _, leased: _, diagnostics: _ } =
            self;
        registry.release_radio(radio);
        registry.release_storage(storage);
        registry.release_event_loop(event_loop);
    }
}

impl Bringup {
    /// The session is consistent: its model is, and it holds the storage
    /// partition and the event loop exactly when the model says so.
    pub closed spec fn wf(&self) -> bool {
        &&& self@.wf()
        &&& self.storage is Some <==> self@.holds_singletons()
        &&& self.event_loop is Some <==> self@.holds_singletons()
    }

    /// Begins a bring-up with the given radio and configuration. The first
    /// action is pending afterwards, unless the configuration is refused.
    pub fn begin(radio: RadioPeripheral, config: Config, validation: Validation) -> (s: Bringup)
        ensures
            s.wf(),
            s@ == Session::opening(config, validation),
    {
        let mut issued: Vec<Step> = Vec::new();
        let state = if !config.check_admitted(validation) {
            BringupState::Failed(
                BringupError::at(Step::Configure, FailureCause::EmptyCredentials),
            )
        } else if !config.check_hostname_fits() {
            BringupState::Failed(
                BringupError::at(Step::Configure, FailureCause::NotRepresentable),
            )
        } else {
            issued.push(Step::Configure);
            BringupState::Idle
        };
        let s = Bringup {
            config,
            validation,
            state,
            issued,
            diagnostics: Diagnostics::NotRead,
            radio,
            storage: None,
            event_loop: None,
        };
        proof {
            assert(s@.issued =~= Session::opening(config, validation).issued);
            assert(s@.issued =~= Step::order().take(s@.issued.len() as int));
        }
        s
    }

    /// The state that the session is in.
    pub fn state(&self) -> (r: BringupState)
        ensures
            r == self@.state,
    {
        self.state
    }

    /// The configuration that the session was begun with.
    pub fn config(&self) -> (r: Config)
        ensures
            r == self@.config,
    {
        self.config
    }

    /// The steps handed out so far, oldest first.
    pub fn steps_issued(&self) -> (r: &Vec<Step>)
        ensures
            r@ == self@.issued,
    {
        &self.issued
    }

    /// The action that is to be carried out now.
    pub fn pending(&self) -> (a: Action)
        ensures
            a == self@.pending(),
    {
        match self.state {
            BringupState::Idle => if self.issued.len() <= 1 {
                Action::Configure
            } else {
                Action::Construct
            },
            BringupState::DriverConstructed => Action::Bind,
            BringupState::InterfaceConfigured => Action::Apply,
            BringupState::ConfigurationApplied => Action::Start,
            BringupState::Started => Action::Associate,
            BringupState::Associating => Action::AwaitAssociation,
            BringupState::Associated => Action::WaitUp,
            BringupState::LeaseAcquired => match self.diagnostics {
                Diagnostics::NotRead => Action::ReadBack,
                _ => Action::Halt,
            },
            BringupState::Failed(_) => Action::Halt,
        }
    }

    /// The step that is under way, if any.
    pub fn step_under_way(&self) -> (r: Option<Step>)
        ensures
            r == self@.step(),
    {
        match self.state {
            BringupState::Idle => if self.issued.len() <= 1 {
                Some(Step::Configure)
            } else {
                Some(Step::Construct)
            },
            BringupState::DriverConstructed => Some(Step::Construct),
            BringupState::InterfaceConfigured => Some(Step::Apply),
            BringupState::ConfigurationApplied => Some(Step::Start),
            BringupState::Started => Some(Step::Associate),
            BringupState::Associating => Some(Step::Associate),
            BringupState::Associated => Some(Step::WaitUp),
            BringupState::LeaseAcquired => None,
            BringupState::Failed(_) => None,
        }
    }

    /// Ends the session at the given step.
    fn fail(&mut self, step: Step, cause: FailureCause)
        requires
            old(self).wf(),
            old(self)@.step() is Some,
            old(self)@.issued.len() == step.index() || old(self)@.issued.len() == step.index()
                + 1,
        ensures
            final(self).wf(),
            final(self)@ == old(self)@.failed_at(step, cause),
    {
        self.state = BringupState::Failed(BringupError::at(step, cause));
    }

    /// Enters the given state and hands out the given step.
    fn issue(&mut self, state: BringupState, step: Step)
        requires
            old(self).wf(),
            old(self)@.issued.len() == step.index(),
            old(self)@.issued.len() >= 2,
            old(self)@.issuing(state, step).step() == Some(step),
            old(self)@.issuing(state, step).confirmed() == step.index(),
        ensures
            final(self).wf(),
            final(self)@ == old(self)@.issuing(state, step),
    {
        self.state = state;
        self.issued.push(step);
        proof {
            let n = old(self)@.issued.len() as int;
            assert(self@.issued =~= Step::order().take(n + 1)) by {
                assert(old(self)@.issued == Step::order().take(n));
                assert(Step::order()[n] == step);
            }
        }
    }

    /// Tells the session how the pending action ended and returns the action
    /// that is pending next.
    pub fn advance(&mut self, registry: &mut Registry, outcome: Outcome) -> (next: Action)
        requires
            old(self).wf(),
            old(registry).wf(),
        ensures
            final(self).wf(),
            final(registry).wf(),
            (final(self)@, final(registry)@) == old(self)@.after(old(registry)@, outcome),
            next == final(self)@.pending(),
    {
        match self.step_under_way() {
            None => {
                match (self.state, self.diagnostics) {
                    (BringupState::LeaseAcquired, Diagnostics::NotRead) => {
                        self.diagnostics = match outcome {
                            Outcome::Succeeded => Diagnostics::Available,
                            Outcome::Failed(_) => Diagnostics::Unavailable,
                        };
                    },
                    _ => {},
                }
            },
            Some(step) => {
                match outcome {
                    Outcome::Failed(cause) => {
                        self.fail(step, cause);
                    },
                    Outcome::Succeeded => {
                        match self.state {
                            BringupState::Idle => {
                                if self.issued.len() <= 1 {
                                    self.acquire_singletons(registry);
                                } else {
                                    self.state = BringupState::DriverConstructed;
                                }
                            },
                            BringupState::DriverConstructed => {
                                if self.config.check_credentials_fit() {
                                    self.issue(BringupState::InterfaceConfigured, Step::Apply);
                                } else {
                                    self.fail(Step::Apply, FailureCause::NotRepresentable);
                                }
                            },
                            BringupState::InterfaceConfigured => {
                                self.issue(BringupState::ConfigurationApplied, Step::Start);
                            },
                            BringupState::ConfigurationApplied => {
                                self.issue(BringupState::Started, Step::Associate);
                            },
                            BringupState::Started => {
                                self.state = BringupState::Associating;
                            },
                            BringupState::Associating => {
                                self.issue(BringupState::Associated, Step::WaitUp);
                            },
                            _ => {
                                self.state = BringupState::LeaseAcquired;
                            },
                        }
                    },
                }
            },
        }
        self.pending()
    }

    /// Takes the storage partition and the event loop and hands out
    /// `Construct`, or fails the session if either is outstanding. In that
    /// case the registry is left as it was.
    fn acquire_singletons(&mut self, registry: &mut Registry)
        requires
            old(self).wf(),
            old(registry).wf(),
            old(self)@.state is Idle,
            old(self)@.issued.len() <= 1,
        ensures
            final(self).wf(),
            final(registry).wf(),
            (final(self)@, final(registry)@) == old(self)@.after(
                old(registry)@,
                Outcome::Succeeded,
            ),
    {
        match registry.take_storage() {
            Err(_) => {
                self.fail(Step::Construct, FailureCause::ResourceTaken);
            },
            Ok(storage) => {
                match registry.take_event_loop() {
                    Err(_) => {
                        registry.release_storage(storage);
                        self.fail(Step::Construct, FailureCause::ResourceTaken);
                    },
                    Ok(event_loop) => {
                        self.storage = Some(storage);
                        self.event_loop = Some(event_loop);
                        self.issued.push(Step::Construct);
                        proof {
                            assert(self@.issued =~= Step::order().take(2));
                        }
                    },
                }
            },
        }
    }

    /// Asks for the result.
    ///
    /// * Online with nothing pending: the link's handle, which now owns what
    ///   the session held. The registry is not touched.
    /// * Failed: the error. The radio goes back to the registry, and so do the
    ///   storage partition and the event loop if the session had taken them,
    ///   so that the caller can take them afresh and try again.
    /// * Otherwise the session itself, unchanged.
    pub fn conclude(self, registry: &mut Registry) -> (c: Conclusion)
        requires
            self.wf(),
            old(registry).wf(),
        ensures
            final(registry).wf(),
            match self@.state {
                BringupState::Failed(e) => {
                    &&& c == Conclusion::Failed(e)
                    &&& final(registry)@ == if self@.holds_singletons() {
                        old(registry)@.without(Capability::Radio).without(
                            Capability::Storage,
                        ).without(Capability::EventLoop)
                    } else {
                        old(registry)@.without(Capability::Radio)
                    }
                },
                BringupState::LeaseAcquired if self@.finished() => {
                    &&& c matches Conclusion::Online(h)
                    &&& h.up()
                    &&& h.lease_held()
                    &&& h.diagnostics_read() == self@.diagnostics
                    &&& final(registry)@ == old(registry)@
                },
                _ => c == Conclusion::Unfinished(self) && final(registry)@ == old(registry)@,
            },
    {
        match self.pending() {
            Action::Halt => {
                let Bringup {
                    config: _,
                    validation: _,
                    state,
                    issued: _,
                    diagnostics,
                    radio,
                    storage,
                    event_loop,
                } = self;
                match state {
                    BringupState::Failed(e) => {
                        registry.release_radio(radio);
                        match storage {
                            Some(token) => {
                                registry.release_storage(token);
                            },
                            None => {},
                        }
                        match event_loop {
                            Some(token) => {
                                registry.release_event_loop(token);
                            },
                            None => {},
                        }
                        Conclusion::Failed(e)
                    },
                    _ => {
                        Conclusion::Online(
                            NetworkHandle {
                                radio,
                                storage: storage.unwrap(),
                                event_loop: event_loop.unwrap(),
                                link_up: true,
                                leased: true,
                                diagnostics,
                            },
                        )
                    },
                }
            },
            _ => Conclusion::Unfinished(self),
        }
    }
}

impl Session {
    /// The number of transitions that the session can still make at most.
    pub open spec fn remaining(self) -> nat {
        match self.state {
            BringupState::Idle => if self.issued.len() == 0 {
                10
            } else if self.issued.len() == 1 {
                9
            } else {
                8
            },
            BringupState::DriverConstructed => 7,
            BringupState::InterfaceConfigured => 6,
            BringupState::ConfigurationApplied => 5,
            BringupState::Started => 4,
            BringupState::Associating => 3,
            BringupState::Associated => 2,
            BringupState::LeaseAcquired => if self.diagnostics == Diagnostics::NotRead {
                1
            } else {
                0
            },
            BringupState::Failed(_) => 0,
        }
    }

    /// The steps that have been handed out and carried out: all that were
    /// handed out, but for the one that is pending.
    pub open spec fn performed(self) -> Seq<Step> {
        if self.pending().begins() is Some {
            self.issued.drop_last()
        } else {
            self.issued
        }
    }

    /// The session and the outstanding capabilities once every action has
    /// been carried out with the outcome that the plan gives it.
    pub open spec fn run(self, reg: Outstanding, plan: Plan) -> (Session, Outstanding)
        decreases self.remaining(),
    {
        if self.finished() {
            (self, reg)
        } else {
            let next = self.after(reg, plan.answer(self.pending()));
            next.0.run(next.1, plan)
        }
    }
}

/// Carries a bring-up through against a scripted driver.
///
/// The result is fixed by the configuration, the registry and the plan: the
/// device comes online exactly if the plan holds no failure that the
/// bring-up meets, and otherwise the first such failure is returned.
///
/// * Online: the handle reports an interface that is up and holds a lease,
///   and it owns the radio, the storage partition and the event loop.
/// * Failed: the radio has gone back to the registry, and the registry is
///   otherwise as before.
///
/// The driver's log grows by the steps that it was asked to begin, which are
/// the first steps of the sequence, in order.
#[verifier::loop_isolation(false)]
pub fn bring_up(
    radio: RadioPeripheral,
    config: Config,
    validation: Validation,
    registry: &mut Registry,
    driver: &mut ScriptedDriver,
) -> (r: Result<NetworkHandle, BringupError>)
    requires
        old(registry).wf(),
    ensures
        final(registry).wf(),
        final(driver).plan() == old(driver).plan(),
        final(driver).log() == old(driver).log() + Step::order().take(
            old(driver).plan().steps_begun(config, validation, old(registry)@) as int,
        ),
        match old(driver).plan().first_failure(config, validation, old(registry)@) {
            None => {
                &&& r matches Ok(h)
                &&& h.up()
                &&& h.lease_held()
                &&& h.diagnostics_read() == if old(driver).plan().read_back is Succeeded {
                    Diagnostics::Available
                } else {
                    Diagnostics::Unavailable
                }
                &&& final(registry)@ == old(registry)@.with(Capability::Storage).with(
                    Capability::EventLoop,
                )
            },
            Some(e) => {
                &&& r == Err::<NetworkHandle, BringupError>(e)
                &&& e.wf()
                &&& final(registry)@ == old(registry)@.without(Capability::Radio)
            },
        },
{
    let ghost plan = driver.plan();
    let ghost reg0 = registry@;
    let ghost log0 = driver.log();
    let mut session = Bringup::begin(radio, config, validation);
    proof {
        lemma_run_verdict(config, validation, reg0, plan);
        assert(session@.performed() =~= Seq::<Step>::empty());
        assert(log0 + session@.performed() =~= log0);
    }
    loop
        invariant
            session.wf(),
            registry.wf(),
            driver.plan() == plan,
            driver.log() == log0 + session@.performed(),
            session@.run(registry@, plan) == Session::opening(config, validation).run(reg0, plan),
        decreases session@.remaining(),
    {
        match session.conclude(registry) {
            Conclusion::Online(handle) => {
                return Ok(handle);
            },
            Conclusion::Failed(e) => {
                return Err(e);
            },
            Conclusion::Unfinished(unfinished) => {
                session = unfinished;
                let ghost before = session@;
                let action = session.pending();
                let outcome = driver.perform(action);
                let ghost held = registry@;
                session.advance(registry, outcome);
                proof {
                    lemma_performed_grows(before, held, outcome);
                    law_every_report_makes_progress(before, held, outcome);
                }
            },
        }
    }
}

/// A whole run ends as the plan's first failure says, with the steps of
/// `steps_begun` handed out.
proof fn lemma_run_verdict(config: Config, validation: Validation, reg: Outstanding, plan: Plan)
    ensures
        ({
            let end = Session::opening(config, validation).run(reg, plan);
            &&& end.0.finished()
            &&& end.0.issued == Step::order().take(
                plan.steps_begun(config, validation, reg) as int,
            )
            &&& match plan.first_failure(config, validation, reg) {
                None => {
                    &&& end.0.state is LeaseAcquired
                    &&& end.0.diagnostics == if plan.read_back is Succeeded {
                        Diagnostics::Available
                    } else {
                        Diagnostics::Unavailable
                    }
                    &&& end.1 == reg.with(Capability::Storage).with(Capability::EventLoop)
                },
                Some(e) => {
                    &&& end.0.state == BringupState::Failed(e)
                    &&& e.wf()
                    &&& end.0.holds_singletons() ==> !reg.storage && !reg.event_loop
                    &&& end.1 == if end.0.holds_singletons() {
                        reg.with(Capability::Storage).with(Capability::EventLoop)
                    } else {
                        reg
                    }
                },
            }
        }),
{
    let s0 = Session::opening(config, validation);
    let order = Step::order();
    if s0.finished() {
        assert(s0.issued =~= order.take(0));
    } else {
        let n1 = s0.after(reg, plan.configure);
        assert(s0.run(reg, plan) == n1.0.run(n1.1, plan));
        assert(n1.0.issued =~= order.take(n1.0.issued.len() as int));
        if !n1.0.finished() {
            let n2 = n1.0.after(n1.1, plan.construct);
            assert(n1.0.run(n1.1, plan) == n2.0.run(n2.1, plan));
            assert(n2.0.issued =~= order.take(n2.0.issued.len() as int));
            if !n2.0.finished() {
                let n3 = n2.0.after(n2.1, plan.bind);
                assert(n2.0.run(n2.1, plan) == n3.0.run(n3.1, plan));
                assert(n3.0.issued =~= order.take(n3.0.issued.len() as int));
                if !n3.0.finished() {
                    let n4 = n3.0.after(n3.1, plan.apply);
                    assert(n3.0.run(n3.1, plan) == n4.0.run(n4.1, plan));
                    assert(n4.0.issued =~= order.take(n4.0.issued.len() as int));
                    if !n4.0.finished() {
                        let n5 = n4.0.after(n4.1, plan.start);
                        assert(n4.0.run(n4.1, plan) == n5.0.run(n5.1, plan));
                        assert(n5.0.issued =~= order.take(n5.0.issued.len() as int));
                        if !n5.0.finished() {
                            let n6 = n5.0.after(n5.1, plan.associate);
                            assert(n5.0.run(n5.1, plan) == n6.0.run(n6.1, plan));
                            assert(n6.0.issued =~= order.take(n6.0.issued.len() as int));
                            if !n6.0.finished() {
                                let n7 = n6.0.after(n6.1, plan.association);
                                assert(n6.0.run(n6.1, plan) == n7.0.run(n7.1, plan));
                                assert(n7.0.issued =~= order.take(n7.0.issued.len() as int));
                                if !n7.0.finished() {
                                    let n8 = n7.0.after(n7.1, plan.wait_up);
                                    assert(n7.0.run(n7.1, plan) == n8.0.run(n8.1, plan));
                                    assert(n8.0.issued =~= order.take(n8.0.issued.len() as int));
                                    if !n8.0.finished() {
                                        let n9 = n8.0.after(n8.1, plan.read_back);
                                        assert(n8.0.run(n8.1, plan) == n9.0.run(n9.1, plan));
                                        assert(n9.0.issued =~= order.take(n9.0.issued.len() as int));
                                    }
                                }
                            }
                        }
                    }
                }
            }
        }
    }
}

/// A transition adds to the steps carried out exactly the step that the
/// action just carried out began.
proof fn lemma_performed_grows(before: Session, reg: Outstanding, outcome: Outcome)
    requires
        before.wf(),
        !before.finished(),
    ensures
        before.after(reg, outcome).0.performed() == match before.pending().begins() {
            Some(step) => before.performed().push(step),
            None => before.performed(),
        },
{
    let next = before.after(reg, outcome).0;
    assert(next.performed() =~= match before.pending().begins() {
        Some(step) => before.performed().push(step),
        None => before.performed(),
    });
}

/// Every report brings a session that is not finished nearer to its end, so
/// that no bring-up takes more than nine reports, however they fall.
pub proof fn law_every_report_makes_progress(s: Session, reg: Outstanding, outcome: Outcome)
    requires
        s.wf(),
    ensures
        s.remaining() <= 9,
        s.finished() <==> s.remaining() == 0,
        !s.finished() ==> s.after(reg, outcome).0.remaining() < s.remaining(),
        s.finished() ==> s.after(reg, outcome).0 == s,
{
}

/// A session is consistent when it is begun.
pub proof fn law_opening_is_consistent(config: Config, validation: Validation)
    ensures
        Session::opening(config, validation).wf(),
        Session::opening(config, validation).pending() == Action::Configure <==> (
        config.admitted(validation) && config.hostname_fits()),
        Session::opening(config, validation).pending() != Action::Configure
            ==> Session::opening(config, validation).finished() && Session::opening(
            config,
            validation,
        ).issued.len() == 0,
{
    let s = Session::opening(config, validation);
    assert(s.issued =~= Step::order().take(s.issued.len() as int));
}

/// The steps are handed out in the order of the sequence, and a step is
/// handed out only when every step before it has succeeded: the step at
/// place `i` of the record is the step at place `i` of the sequence, and at
/// least `i` steps are known to have succeeded.
pub proof fn law_steps_in_order(s: Session, i: int)
    requires
        s.wf(),
        0 <= i < s.issued.len(),
    ensures
        s.issued[i] == Step::order()[i],
        s.issued[i].index() == i,
        i <= s.confirmed(),
        s.state matches BringupState::Failed(e) ==> s.issued[i].index() <= e.step.index(),
{
}

/// No transition disturbs the order: the session stays consistent, the
/// record of steps keeps what it held and grows by one step at most, and it
/// grows only when the pending action has succeeded.
pub proof fn law_transition_keeps_order(s: Session, reg: Outstanding, outcome: Outcome)
    requires
        s.wf(),
    ensures
        ({
            let next = s.after(reg, outcome).0;
            &&& next.wf()
            &&& s.issued.is_prefix_of(next.issued)
            &&& next.issued.len() <= s.issued.len() + 1
            &&& next.issued.len() > s.issued.len() ==> outcome is Succeeded
                && next.confirmed() == s.issued.len()
            &&& next.config == s.config
            &&& next.validation == s.validation
        }),
{
    let next = s.after(reg, outcome).0;
    assert(next.issued =~= Step::order().take(next.issued.len() as int));
    assert(s.issued =~= next.issued.take(s.issued.len() as int));
}

/// A bring-up ends in exactly one of two ways. It brings the device online
/// if and only if the configuration is valid, the storage partition and the
/// event loop are free and every action of the plan succeeds; all six steps
/// have then been begun. Otherwise it fails with one well-formed error, whose
/// step is the last one that was reached.
pub proof fn law_one_verdict(config: Config, validation: Validation, reg: Outstanding, plan: Plan)
    ensures
        plan.first_failure(config, validation, reg) is None <==> {
            &&& config.valid(validation)
            &&& !reg.storage
            &&& !reg.event_loop
            &&& plan.configure is Succeeded
            &&& plan.construct is Succeeded
            &&& plan.bind is Succeeded
            &&& plan.apply is Succeeded
            &&& plan.start is Succeeded
            &&& plan.associate is Succeeded
            &&& plan.association is Succeeded
            &&& plan.wait_up is Succeeded
        },
        plan.first_failure(config, validation, reg) is None ==> plan.steps_begun(
            config,
            validation,
            reg,
        ) == Step::COUNT,
        plan.first_failure(config, validation, reg) matches Some(e) ==> {
            &&& e.wf()
            &&& e.step.index() <= plan.steps_begun(config, validation, reg) <= e.step.index() + 1
        },
{
}

} // verus!
