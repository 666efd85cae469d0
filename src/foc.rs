use vstd::prelude::*;
use crate::config::STATUS_FOC_RDY;

verus! {

/// Where a fast offset compensation stands.
#[derive(Clone, Copy, Debug, PartialEq, Eq, Structural)]
pub enum FocState {
    /// Nothing is running.
    Idle,
    /// The start command was written; the status register is being polled.
    Triggered,
    /// The sensor reported the compensation done; the offsets are to be read.
    Complete,
}

/// What happened, as told to the controller by whoever talks to the sensor.
#[derive(Clone, Copy, Debug, PartialEq, Eq, Structural)]
pub enum FocEvent {
    /// The caller asks for a compensation.
    Start,
    /// The status register was read and held this byte.
    Status(u8),
    /// The offset registers were read.
    OffsetsRead,
}

/// What the caller is to do next.
#[derive(Clone, Copy, Debug, PartialEq, Eq, Structural)]
pub enum FocAction {
    /// Write the start command to the command register.
    WriteStart,
    /// Wait one poll interval, then read the status register again.
    PollAgain,
    /// Read the offset registers.
    ReadOffsets,
    /// The compensation is done.
    Finished,
    /// The status never reported completion within the attempt budget.
    TimedOut,
    /// The event does not apply in this state; nothing changes.
    Ignore,
}

/// The command/poll state machine of a fast offset compensation, with a bound on
/// the number of polls.
#[derive(Clone, Copy, Debug, PartialEq, Eq, Structural)]
pub struct FocController {
    pub state: FocState,
    /// Polls that found the compensation still running.
    pub attempts: u32,
    /// Polls allowed before giving up.
    pub max_attempts: u32,
}

/// Whether a status byte reports the compensation done.
pub open spec fn foc_ready(status: u8) -> bool {
    status & STATUS_FOC_RDY != 0
}

impl FocController {
    /// The polls made never exceed the budget.
    pub open spec fn wf(self) -> bool {
        self.attempts <= self.max_attempts
    }

    /// The next controller and the action for an event.
    pub open spec fn next(self, event: FocEvent) -> (FocController, FocAction) {
        match (self.state, event) {
            (FocState::Idle, FocEvent::Start) => (
                FocController { state: FocState::Triggered, attempts: 0, ..self },
                FocAction::WriteStart,
            ),
            (FocState::Triggered, FocEvent::Status(b)) => if foc_ready(b) {
                (FocController { state: FocState::Complete, attempts: 0, ..self }, FocAction::ReadOffsets)
            } else if self.attempts as int + 1 >= self.max_attempts {
                (FocController { state: FocState::Idle, attempts: 0, ..self }, FocAction::TimedOut)
            } else {
                (FocController { attempts: (self.attempts + 1) as u32, ..self }, FocAction::PollAgain)
            },
            (FocState::Complete, FocEvent::OffsetsRead) => (
                FocController { state: FocState::Idle, attempts: 0, ..self },
                FocAction::Finished,
            ),
            _ => (self, FocAction::Ignore),
        }
    }

    /// A controller that is idle and allows `max_attempts` polls per compensation.
    pub fn new(max_attempts: u32) -> (r: FocController)
        ensures
            r == (FocController { state: FocState::Idle, attempts: 0, max_attempts }),
            r.wf(),
    {
        FocController { state: FocState::Idle, attempts: 0, max_attempts }
    }

    /// Moves the controller on by one event and says what to do next.
    pub fn step(&mut self, event: FocEvent) -> (action: FocAction)
        requires
            old(self).wf(),
        ensures
            (*final(self), action) == old(self).next(event),
            final(self).wf(),
            final(self).max_attempts == old(self).max_attempts,
    {
        match (self.state, event) {
            (FocState::Idle, FocEvent::Start) => {
                self.state = FocState::Triggered;
                self.attempts = 0;
                FocAction::WriteStart
            },
            (FocState::Triggered, FocEvent::Status(b)) => {
                if b & STATUS_FOC_RDY != 0 {
                    self.state = FocState::Complete;
                    self.attempts = 0;
                    FocAction::ReadOffsets
                } else if self.max_attempts - self.attempts <= 1 {
                    self.state = FocState::Idle;
                    self.attempts = 0;
                    FocAction::TimedOut
                } else {
                    self.attempts = self.attempts + 1;
                    FocAction::PollAgain
                }
            },
            (FocState::Complete, FocEvent::OffsetsRead) => {
                self.state = FocState::Idle;
                self.attempts = 0;
                FocAction::Finished
            },
            _ => FocAction::Ignore,
        }
    }
}

/// The controller after `n` polls that each find the compensation still running.
pub open spec fn after_busy_polls(c: FocController, n: nat) -> FocController
    decreases n,
{
    if n == 0 {
        c
    } else {
        after_busy_polls(c.next(FocEvent::Status(0)).0, (n - 1) as nat)
    }
}

/// A running compensation cannot be polled forever: once the budget of polls is
/// spent (at least one poll), the controller is idle again.
pub proof fn lemma_foc_bounded(c: FocController)
    requires
        c.wf(),
        c.state == FocState::Triggered,
    ensures
        after_busy_polls(c, if c.max_attempts > c.attempts { (c.max_attempts - c.attempts) as nat } else { 1 }).state
            == FocState::Idle,
    decreases c.max_attempts - c.attempts,
{
    assert(!foc_ready(0)) by (bit_vector);
    let d = c.next(FocEvent::Status(0)).0;
    let k: nat = if c.max_attempts > c.attempts { (c.max_attempts - c.attempts) as nat } else { 1 };
    assert(after_busy_polls(c, k) == after_busy_polls(d, (k - 1) as nat));
    if c.max_attempts as int - c.attempts as int > 1 {
        lemma_foc_bounded(d);
        assert((k - 1) as nat == (d.max_attempts - d.attempts) as nat);
    } else {
        assert(after_busy_polls(d, 0) == d);
    }
}

} // verus!
