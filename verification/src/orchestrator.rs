//! The composition root: it owns the registry, starts the bring-up, decides
//! when the blink task may run and keeps the link alive.
//!
//! The radio and the output line are independent resources, and by default
//! so are the two tasks: the blink task starts at once, whatever the network
//! does. Whoever wants the line to blink only once the device is online says
//! so with [`BlinkStart::WhenOnline`]. Either way the choice is written down
//! here and not left to the order of two calls.

use crate::blink::BlinkTask;
use crate::bringup::{Action, Bringup, BringupState, Conclusion, NetworkHandle, Outcome, Session};
use crate::capability::{Capability, Outstanding, Registry};
use crate::config::{Config, Validation};
use crate::error::{BringupError, ErrorKind};
use vstd::prelude::*;

verus! {

/// When the blink task may start.
#[derive(Clone, Copy, Debug, PartialEq, Eq, Structural)]
pub enum BlinkStart {
    /// At once, whether or not the network ever comes up.
    Immediately,
    /// Only once the bring-up has brought the device online.
    WhenOnline,
}

/// Why the blink task was not started.
#[derive(Clone, Copy, Debug, PartialEq, Eq, Structural)]
pub enum BlinkRefusal {
    /// The policy waits for the network, and the device is not online.
    NotOnline,
    /// The output line is held by someone else.
    LineTaken,
}

impl BlinkStart {
    /// The policy lets the blink task start in the given bring-up state.
    pub open spec fn allows(self, state: BringupState) -> bool {
        self == BlinkStart::Immediately || state is LeaseAcquired
    }

    /// Whether the policy lets the blink task start in the given bring-up
    /// state.
    pub fn permits(self, state: BringupState) -> (r: bool)
        ensures
            r == self.allows(state),
    {
        match self {
            BlinkStart::Immediately => true,
            BlinkStart::WhenOnline => state.online(),
        }
    }
}

/// The composition root.
pub struct Orchestrator {
    registry: Registry,
    blink_start: BlinkStart,
    network: Option<NetworkHandle>,
}

impl Orchestrator {
    /// The capabilities that are outstanding.
    pub closed spec fn outstanding(&self) -> Outstanding {
        self.registry@
    }

    /// The policy for the start of the blink task.
    pub closed spec fn policy(&self) -> BlinkStart {
        self.blink_start
    }

    /// The link that is kept alive, if there is one.
    pub closed spec fn kept(&self) -> Option<NetworkHandle> {
        self.network
    }

    /// The orchestrator's registry is consistent.
    pub closed spec fn wf(&self) -> bool {
        self.registry.wf()
    }

    /// An orchestrator from whose registry nothing has been taken and that
    /// keeps no link yet.
    pub fn new(blink_start: BlinkStart) -> (o: Orchestrator)
        ensures
            o.wf(),
            o.outstanding() == Outstanding::none(),
            o.policy() == blink_start,
            o.kept() is None,
    {
        Orchestrator { registry: Registry::new(), blink_start, network: None }
    }

    /// Whether a link is kept alive.
    pub fn is_online(&self) -> (r: bool)
        ensures
            r == self.kept() is Some,
    {
        self.network.is_some()
    }

    /// Whether the capability is outstanding.
    pub fn is_taken(&self, c: Capability) -> (r: bool)
        ensures
            r == self.outstanding().has(c),
    {
        self.registry.is_taken(c)
    }

    /// Takes the radio and begins a bring-up with it. Fails at once, and
    /// changes nothing, if the radio is outstanding.
    pub fn begin_bringup(&mut self, config: Config, validation: Validation) -> (r: Result<
        Bringup,
        ErrorKind,
    >)
        requires
            old(self).wf(),
        ensures
            final(self).wf(),
            final(self).policy() == old(self).policy(),
            final(self).kept() == old(self).kept(),
            match old(self).outstanding().request(Capability::Radio) {
                Ok(after) => {
                    &&& final(self).outstanding() == after
                    &&& r matches Ok(s)
                    &&& s.wf()
                    &&& s@ == Session::opening(config, validation)
                },
                Err(e) => r == Err::<Bringup, ErrorKind>(e) && final(self).outstanding() == old(self).outstanding(),
            },
    {
        match self.registry.take_radio() {
            Ok(radio) => Ok(Bringup::begin(radio, config, validation)),
            Err(e) => Err(e),
        }
    }

    /// Tells the session how its pending action ended; see
    /// [`Bringup::advance`]. The capabilities that the session needs come
    /// from this orchestrator's registry.
    pub fn advance(&mut self, session: &mut Bringup, outcome: Outcome) -> (next: Action)
        requires
            old(self).wf(),
            old(session).wf(),
        ensures
            final(self).wf(),
            final(session).wf(),
            final(self).policy() == old(self).policy(),
            final(self).kept() == old(self).kept(),
            (final(session)@, final(self).outstanding()) == old(session)@.after(
                old(self).outstanding(),
                outcome,
            ),
            next == final(session)@.pending(),
    {
        session.advance(&mut self.registry, outcome)
    }

    /// Settles a session.
    ///
    /// * Online with nothing pending: the link's handle moves into the
    ///   orchestrator, which keeps it for the rest of the process's life, so
    ///   that the interface is not torn down when the caller returns.
    /// * Failed: the error is returned and what the session held is free
    ///   again.
    /// * Otherwise the session is handed back unchanged.
    ///
    /// A session that comes online while a link is already kept cannot have
    /// been begun here: the link that is kept stays, and the new handle is
    /// handed back to the caller.
    pub fn settle(&mut self, session: Bringup) -> (r: Result<(), Settlement>)
        requires
            old(self).wf(),
            session.wf(),
        ensures
            final(self).wf(),
            final(self).policy() == old(self).policy(),
            match session@.state {
                BringupState::Failed(e) => {
                    &&& r == Err::<(), Settlement>(Settlement::Failed(e))
                    &&& final(self).kept() == old(self).kept()
                    &&& final(self).outstanding() == if session@.holds_singletons() {
                        old(self).outstanding().without(Capability::Radio).without(
                            Capability::Storage,
                        ).without(Capability::EventLoop)
                    } else {
                        old(self).outstanding().without(Capability::Radio)
                    }
                },
                BringupState::LeaseAcquired if session@.finished() => {
                    &&& final(self).outstanding() == old(self).outstanding()
                    &&& match old(self).kept() {
                        None => {
                            &&& r is Ok
                            &&& final(self).kept() matches Some(h)
                            &&& h.up()
                            &&& h.lease_held()
                            &&& h.diagnostics_read() == session@.diagnostics
                        },
                        Some(_) => {
                            &&& final(self).kept() == old(self).kept()
                            &&& r matches Err(Settlement::AlreadyOnline(h))
                            &&& h.up()
                            &&& h.lease_held()
                            &&& h.diagnostics_read() == session@.diagnostics
                        },
                    }
                },
                _ => {
                    &&& r == Err::<(), Settlement>(Settlement::Unfinished(session))
                    &&& final(self).kept() == old(self).kept()
                    &&& final(self).outstanding() == old(self).outstanding()
                },
            },
    {
        match session.conclude(&mut self.registry) {
            Conclusion::Online(handle) => {
                if self.network.is_some() {
                    Err(Settlement::AlreadyOnline(handle))
                } else {
                    self.network = Some(handle);
                    Ok(())
                }
            },
            Conclusion::Failed(e) => Err(Settlement::Failed(e)),
            Conclusion::Unfinished(s) => Err(Settlement::Unfinished(s)),
        }
    }

    /// Starts the blink task on the given line if the policy allows it in the
    /// given bring-up state and the line is free.
    pub fn start_blink(&mut self, pin: u8, period_ms: u64, state: BringupState) -> (r: Result<
        BlinkTask,
        BlinkRefusal,
    >)
        requires
            old(self).wf(),
        ensures
            final(self).wf(),
            final(self).policy() == old(self).policy(),
            final(self).kept() == old(self).kept(),
            if !old(self).policy().allows(state) {
                &&& r == Err::<BlinkTask, BlinkRefusal>(BlinkRefusal::NotOnline)
                &&& final(self).outstanding() == old(self).outstanding()
            } else if old(self).outstanding().has(Capability::Pin(pin)) {
                &&& r == Err::<BlinkTask, BlinkRefusal>(BlinkRefusal::LineTaken)
                &&& final(self).outstanding() == old(self).outstanding()
            } else {
                &&& r matches Ok(t)
                &&& t@ == crate::blink::Blinker::starting(period_ms)
                &&& t.line() == pin
                &&& final(self).outstanding() == old(self).outstanding().with(Capability::Pin(pin))
            },
    {
        if !self.blink_start.permits(state) {
            return Err(BlinkRefusal::NotOnline);
        }
        match self.registry.take_pin(pin) {
            Ok(handle) => Ok(BlinkTask::start(handle, period_ms)),
            Err(_) => Err(BlinkRefusal::LineTaken),
        }
    }

    /// Takes back the line of a blink task that has ended. A task that still
    /// runs keeps its line and is handed back.
    pub fn reclaim_line(&mut self, task: BlinkTask) -> (r: Result<(), BlinkTask>)
        requires
            old(self).wf(),
        ensures
            final(self).wf(),
            final(self).policy() == old(self).policy(),
            final(self).kept() == old(self).kept(),
            task@.state.has_ended() ==> r is Ok && final(self).outstanding() == old(self).outstanding().without(Capability::Pin(task.line())),
            !task@.state.has_ended() ==> r == Err::<(), BlinkTask>(task) && final(self).outstanding() == old(self).outstanding(),
    {
        match task.release() {
            Ok(pin) => {
                self.registry.release_pin(pin);
                Ok(())
            },
            Err(task) => Err(task),
        }
    }

    /// Takes the link down on purpose and frees what it held.
    pub fn shut_down_network(&mut self) -> (was_online: bool)
        requires
            old(self).wf(),
        ensures
            final(self).wf(),
            final(self).policy() == old(self).policy(),
            final(self).kept() is None,
            was_online == old(self).kept() is Some,
            final(self).outstanding() == if was_online {
                old(self).outstanding().without(Capability::Radio).without(
                    Capability::Storage,
                ).without(Capability::EventLoop)
            } else {
                old(self).outstanding()
            },
    {
        match self.network.take() {
            Some(handle) => {
                handle.teardown(&mut self.registry);
                true
            },
            None => false,
        }
    }
}

/// How a session that could not be settled as online came back.
#[derive(Debug)]
pub enum Settlement {
    /// The bring-up failed.
    Failed(BringupError),
    /// An action is still pending.
    Unfinished(Bringup),
    /// The device came online, but another link is already kept.
    AlreadyOnline(NetworkHandle),
}

/// With the default policy the blink task never waits for the network, and
/// with the other it runs only while the device is online.
pub proof fn law_blink_coupling_is_explicit(state: BringupState)
    ensures
        BlinkStart::Immediately.allows(state),
        BlinkStart::WhenOnline.allows(state) <==> state is LeaseAcquired,
{
}

} // verus!
