//! The blink task: one output line, switched on and off for ever.
//!
//! The task alternates the line between asserted and deasserted and holds
//! each level for half a period. It has no end of its own. It ends only when
//! a write to the line fails, which aborts it, or when it is cancelled, in
//! which case it parks the line deasserted and writes no more.
//!
//! Like the bring-up, the task decides and leaves the doing to its driver:
//! it names the pending action, the driver writes the line or sleeps, and
//! then tells the task how that ended.

use crate::capability::OutputPinHandle;
use vstd::prelude::*;

verus! {

/// The level of an output line.
#[derive(Clone, Copy, Debug, PartialEq, Eq, Structural)]
pub enum Level {
    Asserted,
    Deasserted,
}

/// A failed write to the line, with the code that the hardware layer gave.
#[derive(Clone, Copy, Debug, PartialEq, Eq, Structural)]
pub struct PinFault {
    pub code: i32,
}

/// Where the task stands.
#[derive(Clone, Copy, Debug, PartialEq, Eq, Structural)]
pub enum BlinkState {
    /// The line is being set to the given level.
    Writing(Level),
    /// The line has the given level and keeps it for half a period.
    Holding(Level),
    /// The task was cancelled and is setting the line to its resting level.
    Parking,
    /// The task was cancelled and the line rests deasserted.
    Cancelled,
    /// A write failed. The task is dead and says why.
    Aborted(PinFault),
}

/// What the driver of the task reports.
#[derive(Clone, Copy, Debug, PartialEq, Eq, Structural)]
pub enum BlinkEvent {
    /// The pending action is done.
    Done,
    /// The line could not be written.
    WriteFailed(PinFault),
    /// The task is to stop.
    Cancel,
}

/// What the driver of the task has to do next.
#[derive(Clone, Copy, Debug, PartialEq, Eq, Structural)]
pub enum BlinkAction {
    /// Set the line to the level.
    Write(Level),
    /// Leave the line at the level for so many milliseconds.
    Hold { level: Level, millis: u64 },
    /// Nothing: the task has ended.
    Halt,
}

impl Level {
    /// The other level.
    pub open spec fn toggled(self) -> Level {
        match self {
            Level::Asserted => Level::Deasserted,
            Level::Deasserted => Level::Asserted,
        }
    }

    /// The other level.
    pub fn toggle(self) -> (r: Level)
        ensures
            r == self.toggled(),
    {
        match self {
            Level::Asserted => Level::Deasserted,
            Level::Deasserted => Level::Asserted,
        }
    }
}

impl BlinkState {
    /// The task is blinking: it has neither been cancelled nor aborted.
    pub open spec fn is_running(self) -> bool {
        self is Writing || self is Holding
    }

    /// The task has ended and will never write again.
    pub open spec fn has_ended(self) -> bool {
        self is Cancelled || self is Aborted
    }

    /// Whether the task has ended.
    pub fn ended(&self) -> (r: bool)
        ensures
            r == self.has_ended(),
    {
        match self {
            BlinkState::Cancelled => true,
            BlinkState::Aborted(_) => true,
            _ => false,
        }
    }
}

/// The mathematical model of the task.
pub struct Blinker {
    /// Length of a full period in milliseconds.
    pub period: u64,
    pub state: BlinkState,
    /// The level that the line was last set to, if it was set at all.
    pub level: Option<Level>,
}

/// The time that the line has spent at each level, in milliseconds, and the
/// task at the end of that time.
pub struct Tally {
    pub task: Blinker,
    pub asserted: nat,
    pub deasserted: nat,
}

impl Blinker {
    /// The task as it starts: about to assert the line.
    pub open spec fn starting(period: u64) -> Blinker {
        Blinker { period, state: BlinkState::Writing(Level::Asserted), level: None }
    }

    /// How long each level is held: half a period.
    pub open spec fn half_period(self) -> u64 {
        self.period / 2
    }

    /// The action that is to be carried out now.
    pub open spec fn pending(self) -> BlinkAction {
        match self.state {
            BlinkState::Writing(level) => BlinkAction::Write(level),
            BlinkState::Holding(level) => BlinkAction::Hold { level, millis: self.half_period() },
            BlinkState::Parking => BlinkAction::Write(Level::Deasserted),
            BlinkState::Cancelled => BlinkAction::Halt,
            BlinkState::Aborted(_) => BlinkAction::Halt,
        }
    }

    /// The transition: the task after its driver has reported `event`.
    ///
    /// * A task that has ended stays as it is.
    /// * A failed write aborts the task, whatever it was doing.
    /// * A cancelled task parks the line; once that write is done it has
    ///   ended, with the line deasserted.
    /// * Otherwise a finished write is followed by a hold at the level
    ///   written, and a finished hold by a write of the other level.
    pub open spec fn after(self, event: BlinkEvent) -> Blinker {
        match self.state {
            BlinkState::Cancelled => self,
            BlinkState::Aborted(_) => self,
            state => match event {
                BlinkEvent::WriteFailed(fault) => Blinker {
                    state: BlinkState::Aborted(fault),
                    ..self
                },
                BlinkEvent::Cancel => Blinker { state: BlinkState::Parking, ..self },
                BlinkEvent::Done => match state {
                    BlinkState::Writing(level) => Blinker {
                        state: BlinkState::Holding(level),
                        level: Some(level),
                        ..self
                    },
                    BlinkState::Holding(level) => Blinker {
                        state: BlinkState::Writing(level.toggled()),
                        ..self
                    },
                    _ => Blinker {
                        state: BlinkState::Cancelled,
                        level: Some(Level::Deasserted),
                        ..self
                    },
                },
            },
        }
    }

    /// The time for which the pending action keeps the line at `level`.
    pub open spec fn holds_for(self, level: Level) -> nat {
        match self.pending() {
            BlinkAction::Hold { level: l, millis } => if l == level {
                millis as nat
            } else {
                0
            },
            _ => 0,
        }
    }

    /// The task left alone while its driver completes `actions` actions one
    /// after the other, and the time that the line spends at each level
    /// meanwhile.
    pub open spec fn elapse(self, actions: nat) -> Tally
        decreases actions,
    {
        if actions == 0 {
            Tally { task: self, asserted: 0, deasserted: 0 }
        } else {
            let t = self.elapse((actions - 1) as nat);
            Tally {
                task: t.task.after(BlinkEvent::Done),
                asserted: t.asserted + t.task.holds_for(Level::Asserted),
                deasserted: t.deasserted + t.task.holds_for(Level::Deasserted),
            }
        }
    }

    /// What is known of every task: the line rests deasserted once the task
    /// is cancelled, and while a level is held the line has that level.
    pub open spec fn wf(self) -> bool {
        &&& self.state is Cancelled ==> self.level == Some(Level::Deasserted)
        &&& self.state matches BlinkState::Holding(l) ==> self.level == Some(l)
    }
}

/// The blink task. It is the one owner of its output line.
#[derive(Debug)]
pub struct BlinkTask {
    pin: OutputPinHandle,
    period_ms: u64,
    state: BlinkState,
    level: Option<Level>,
}

impl View for BlinkTask {
    type V = Blinker;

    closed spec fn view(&self) -> Blinker {
        Blinker { period: self.period_ms, state: self.state, level: self.level }
    }
}

impl BlinkTask {
    /// The number of the line that the task drives.
    pub closed spec fn line(&self) -> u8 {
        self.pin.line()
    }

    /// A task that blinks the given line with the given period. Its first
    /// action asserts the line.
    pub fn start(pin: OutputPinHandle, period_ms: u64) -> (t: BlinkTask)
        ensures
            t@ == Blinker::starting(period_ms),
            t@.wf(),
            t.line() == pin.line(),
    {
        BlinkTask { pin, period_ms, state: BlinkState::Writing(Level::Asserted), level: None }
    }

    /// Where the task stands.
    pub fn state(&self) -> (r: BlinkState)
        ensures
            r == self@.state,
    {
        self.state
    }

    /// The level that the line was last set to, if it was set at all.
    pub fn level(&self) -> (r: Option<Level>)
        ensures
            r == self@.level,
    {
        self.level
    }

    /// The number of the line that the task drives.
    pub fn pin(&self) -> (n: u8)
        ensures
            n == self.line(),
    {
        self.pin.pin()
    }

    /// How long each level is held, in milliseconds.
    pub fn half_period_ms(&self) -> (r: u64)
        ensures
            r == self@.half_period(),
    {
        self.period_ms / 2
    }

    /// The action that is to be carried out now.
    pub fn pending(&self) -> (a: BlinkAction)
        ensures
            a == self@.pending(),
    {
        match self.state {
            BlinkState::Writing(level) => BlinkAction::Write(level),
            BlinkState::Holding(level) => BlinkAction::Hold {
                level,
                millis: self.half_period_ms(),
            },
            BlinkState::Parking => BlinkAction::Write(Level::Deasserted),
            BlinkState::Cancelled => BlinkAction::Halt,
            BlinkState::Aborted(_) => BlinkAction::Halt,
        }
    }

    /// Tells the task what its driver reports and returns the action that is
    /// pending next.
    pub fn advance(&mut self, event: BlinkEvent) -> (next: BlinkAction)
        requires
            old(self)@.wf(),
        ensures
            final(self)@ == old(self)@.after(event),
            final(self)@.wf(),
            final(self).line() == old(self).line(),
            next == final(self)@.pending(),
    {
        match self.state {
            BlinkState::Cancelled => {},
            BlinkState::Aborted(_) => {},
            state => {
                match event {
                    BlinkEvent::WriteFailed(fault) => {
                        self.state = BlinkState::Aborted(fault);
                    },
                    BlinkEvent::Cancel => {
                        self.state = BlinkState::Parking;
                    },
                    BlinkEvent::Done => {
                        match state {
                            BlinkState::Writing(level) => {
                                self.state = BlinkState::Holding(level);
                                self.level = Some(level);
                            },
                            BlinkState::Holding(level) => {
                                self.state = BlinkState::Writing(level.toggle());
                            },
                            _ => {
                                self.state = BlinkState::Cancelled;
                                self.level = Some(Level::Deasserted);
                            },
                        }
                    },
                }
            },
        }
        self.pending()
    }

    /// Gives the line back once the task has ended. A task that has not
    /// ended keeps its line and is handed back unchanged.
    pub fn release(self) -> (r: Result<OutputPinHandle, BlinkTask>)
        ensures
            self@.state.has_ended() ==> (r matches Ok(pin) && pin.line() == self.line()),
            !self@.state.has_ended() ==> r == Err::<OutputPinHandle, BlinkTask>(self),
    {
        if self.state.ended() {
            Ok(self.pin)
        } else {
            Err(self)
        }
    }
}

/// The task's invariant holds from the start and after every report.
pub proof fn law_blinker_stays_consistent(b: Blinker, period: u64, event: BlinkEvent)
    requires
        b.wf(),
    ensures
        Blinker::starting(period).wf(),
        b.after(event).wf(),
{
}

/// Four completed actions are one full period: the task is where it was,
/// and the line has spent half a period at each level.
proof fn lemma_one_period(b: Blinker)
    requires
        b.state.is_running(),
    ensures
        b.elapse(4).task.state == b.state,
        b.elapse(4).task.period == b.period,
        b.elapse(4).asserted == b.half_period(),
        b.elapse(4).deasserted == b.half_period(),
{
    reveal_with_fuel(Blinker::elapse, 5);
}

/// Letting `m` actions complete and then `n` more is letting `m + n`
/// complete; the times add up.
proof fn lemma_elapse_adds(b: Blinker, m: nat, n: nat)
    ensures
        b.elapse(m + n).task == b.elapse(m).task.elapse(n).task,
        b.elapse(m + n).asserted == b.elapse(m).asserted + b.elapse(m).task.elapse(n).asserted,
        b.elapse(m + n).deasserted == b.elapse(m).deasserted + b.elapse(m).task.elapse(
            n,
        ).deasserted,
    decreases n,
{
    if n > 0 {
        lemma_elapse_adds(b, m, (n - 1) as nat);
        assert((m + n - 1) as nat == m + (n - 1) as nat);
    }
}

/// Over any window of `periods` full periods in the life of a running task
/// that is left alone, the line is asserted for `periods` half-periods and
/// deasserted for as long, and the task ends the window where it began it.
/// The window may begin at any action.
pub proof fn law_even_duty(b: Blinker, periods: nat)
    requires
        b.state.is_running(),
    ensures
        b.elapse(4 * periods).task.state == b.state,
        b.elapse(4 * periods).task.period == b.period,
        b.elapse(4 * periods).asserted == periods * b.half_period(),
        b.elapse(4 * periods).deasserted == periods * b.half_period(),
    decreases periods,
{
    if periods > 0 {
        let before = (periods - 1) as nat;
        law_even_duty(b, before);
        let mid = b.elapse(4 * before).task;
        lemma_one_period(mid);
        lemma_elapse_adds(b, 4 * before, 4);
        assert(4 * before + 4 == 4 * periods);
        assert(mid.half_period() == b.half_period());
        assert(before * b.half_period() + b.half_period() == periods * b.half_period())
            by (nonlinear_arith)
            requires
                before + 1 == periods,
        ;
    }
}

/// A task that has ended never asks for another write, whatever is
/// reported to it, and a cancelled one leaves the line deasserted.
pub proof fn law_ended_task_is_silent(b: Blinker, event: BlinkEvent)
    requires
        b.wf(),
        b.state.has_ended(),
    ensures
        b.pending() == BlinkAction::Halt,
        b.after(event) == b,
        b.state is Cancelled ==> b.level == Some(Level::Deasserted),
{
}

/// Cancelling a task that has not ended makes it park the line: the next
/// action writes the resting level, and when that write is done the task has
/// ended with the line deasserted.
pub proof fn law_cancel_parks_the_line(b: Blinker)
    requires
        !b.state.has_ended(),
    ensures
        b.after(BlinkEvent::Cancel).pending() == BlinkAction::Write(Level::Deasserted),
        b.after(BlinkEvent::Cancel).after(BlinkEvent::Done).state == BlinkState::Cancelled,
        b.after(BlinkEvent::Cancel).after(BlinkEvent::Done).level == Some(Level::Deasserted),
{
}

} // verus!
