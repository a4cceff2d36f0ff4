//! One ranging cycle as a state machine.
//!
//! A cycle checks that the echo line is low, fires the trigger pulse, waits
//! for the echo line to rise and then to fall, and ends with the length of
//! the echo pulse or with the reason why there is none. Nothing here
//! touches a pin or a clock: [`Cycle::step`] takes what the shell observed
//! and returns what the shell has to do next.

use vstd::prelude::*;

use crate::error::MeasureError;

verus! {

/// How long the trigger line is held high, in microseconds.
pub const TRIGGER_PULSE_MICROS: u64 = 10;

/// How long each of the two waits on the echo line may take, in seconds.
/// The wait for the rise and the wait for the fall each get this budget in
/// full.
pub const EDGE_TIMEOUT_SECS: u64 = 2;

/// What the shell did or observed on behalf of the cycle.
#[derive(Clone, Copy, Debug, PartialEq, Eq, Structural)]
pub enum Event {
    /// The echo line was read before anything else was done.
    EchoLevel { high: bool },
    /// The trigger line was driven high, held, and driven low again.
    PulseSent,
    /// The echo line went high within its budget; `at` is the reading of
    /// the monotonic clock taken when this was seen.
    EchoRose { at: u64 },
    /// The echo line went low within its budget; `at` is the reading of the
    /// same clock taken when this was seen.
    EchoFell { at: u64 },
    /// The wait on the echo line ran out of time.
    TimedOut,
}

/// What the shell has to do for the cycle to go on.
#[derive(Clone, Copy, Debug, PartialEq, Eq, Structural)]
pub enum Action {
    /// Read the echo line and report its level.
    ReadEcho,
    /// Drive the trigger line high, keep it high for `hold_micros`
    /// microseconds, and drive it low.
    SendPulse { hold_micros: u64 },
    /// Wait until the echo line is high, for at most `timeout_secs` seconds.
    AwaitRise { timeout_secs: u64 },
    /// Wait until the echo line is low, for at most `timeout_secs` seconds.
    AwaitFall { timeout_secs: u64 },
    /// The cycle succeeded: turn the pulse length, given in ticks of the
    /// clock that stamped the two edges, into a distance.
    Report { pulse: u64 },
    /// The cycle failed: hand the reason to the caller.
    Fail { error: MeasureError },
}

/// The state of one ranging cycle.
#[derive(Clone, Copy, Debug, PartialEq, Eq, Structural)]
pub enum Cycle {
    /// Nothing was done yet; the level of the echo line is wanted.
    Idle,
    /// The echo line was low; the trigger pulse is to be sent.
    Triggering,
    /// The pulse is out; the echo line is expected to rise.
    AwaitingRise,
    /// The echo line rose at `rose_at`; it is expected to fall.
    AwaitingFall { rose_at: u64 },
    /// The echo line fell `pulse` ticks after it rose.
    Done { pulse: u64 },
    /// The cycle ended without a reading.
    Failed { error: MeasureError },
}

impl Cycle {
    /// Whether `event` is an answer to what the cycle is waiting for.
    ///
    /// A finished cycle accepts nothing. A fall that is stamped earlier
    /// than the rise it follows is not accepted either: the clock is
    /// monotonic, so such a pair cannot be two readings of it.
    pub open spec fn accepts(self, event: Event) -> bool {
        match self {
            Cycle::Idle => event is EchoLevel,
            Cycle::Triggering => event is PulseSent,
            Cycle::AwaitingRise => event is EchoRose || event is TimedOut,
            Cycle::AwaitingFall { rose_at } => match event {
                Event::EchoFell { at } => rose_at <= at,
                Event::TimedOut => true,
                _ => false,
            },
            Cycle::Done { .. } => false,
            Cycle::Failed { .. } => false,
        }
    }

    /// The state that follows `self` on `event`. An event that is not
    /// accepted changes nothing.
    pub open spec fn next(self, event: Event) -> Cycle {
        if !self.accepts(event) {
            self
        } else {
            match self {
                Cycle::Idle => if event->high {
                    Cycle::Failed { error: MeasureError::PreconditionViolation }
                } else {
                    Cycle::Triggering
                },
                Cycle::Triggering => Cycle::AwaitingRise,
                Cycle::AwaitingRise => match event {
                    Event::EchoRose { at } => Cycle::AwaitingFall { rose_at: at },
                    _ => Cycle::Failed { error: MeasureError::RiseTimeout },
                },
                Cycle::AwaitingFall { rose_at } => match event {
                    Event::EchoFell { at } => Cycle::Done { pulse: (at - rose_at) as u64 },
                    _ => Cycle::Failed { error: MeasureError::FallTimeout },
                },
                _ => self,
            }
        }
    }

    /// What the shell has to do in this state.
    pub open spec fn spec_action(&self) -> Action {
        match self {
            Cycle::Idle => Action::ReadEcho,
            Cycle::Triggering => Action::SendPulse { hold_micros: TRIGGER_PULSE_MICROS },
            Cycle::AwaitingRise => Action::AwaitRise { timeout_secs: EDGE_TIMEOUT_SECS },
            Cycle::AwaitingFall { .. } => Action::AwaitFall { timeout_secs: EDGE_TIMEOUT_SECS },
            Cycle::Done { pulse } => Action::Report { pulse: *pulse },
            Cycle::Failed { error } => Action::Fail { error: *error },
        }
    }

    /// Whether the cycle has ended, with a reading or without.
    pub open spec fn spec_is_finished(&self) -> bool {
        self is Done || self is Failed
    }

    /// What the cycle ended with: the pulse length, or the reason why there
    /// is none. `None` while the cycle is still running.
    pub open spec fn spec_outcome(&self) -> Option<Result<u64, MeasureError>> {
        match self {
            Cycle::Done { pulse } => Some(Ok(*pulse)),
            Cycle::Failed { error } => Some(Err(*error)),
            _ => None,
        }
    }

    /// A cycle that has not begun.
    pub fn new() -> (cycle: Cycle)
        ensures
            cycle == Cycle::Idle,
    {
        Cycle::Idle
    }

    /// Returns what the shell has to do in this state.
    #[verifier::when_used_as_spec(spec_action)]
    pub fn action(&self) -> (action: Action)
        ensures
            action == self.spec_action(),
    {
        match self {
            Cycle::Idle => Action::ReadEcho,
            Cycle::Triggering => Action::SendPulse { hold_micros: TRIGGER_PULSE_MICROS },
            Cycle::AwaitingRise => Action::AwaitRise { timeout_secs: EDGE_TIMEOUT_SECS },
            Cycle::AwaitingFall { .. } => Action::AwaitFall { timeout_secs: EDGE_TIMEOUT_SECS },
            Cycle::Done { pulse } => Action::Report { pulse: *pulse },
            Cycle::Failed { error } => Action::Fail { error: *error },
        }
    }

    /// Returns whether the cycle has ended.
    #[verifier::when_used_as_spec(spec_is_finished)]
    pub fn is_finished(&self) -> (finished: bool)
        ensures
            finished == self.spec_is_finished(),
    {
        match self {
            Cycle::Done { .. } => true,
            Cycle::Failed { .. } => true,
            _ => false,
        }
    }

    /// Returns what the cycle ended with, or `None` while it is running.
    #[verifier::when_used_as_spec(spec_outcome)]
    pub fn outcome(&self) -> (outcome: Option<Result<u64, MeasureError>>)
        ensures
            outcome == self.spec_outcome(),
    {
        match self {
            Cycle::Done { pulse } => Some(Ok(*pulse)),
            Cycle::Failed { error } => Some(Err(*error)),
            _ => None,
        }
    }

    /// Takes what the shell observed and moves the cycle on.
    ///
    /// Where the event answers what the cycle was waiting for, the cycle
    /// enters the state that follows and the result is what the shell has
    /// to do there. Any other event leaves the cycle as it was, and the
    /// result is `None`.
    pub fn step(&mut self, event: Event) -> (action: Option<Action>)
        ensures
            *final(self) == old(self).next(event),
            old(self).accepts(event) ==> action == Some(final(self).spec_action()),
            !old(self).accepts(event) ==> action is None,
    {
        let following: Option<Cycle> = match (*self, event) {
            (Cycle::Idle, Event::EchoLevel { high }) => {
                if high {
                    Some(Cycle::Failed { error: MeasureError::PreconditionViolation })
                } else {
                    Some(Cycle::Triggering)
                }
            },
            (Cycle::Triggering, Event::PulseSent) => Some(Cycle::AwaitingRise),
            (Cycle::AwaitingRise, Event::EchoRose { at }) => {
                Some(Cycle::AwaitingFall { rose_at: at })
            },
            (Cycle::AwaitingRise, Event::TimedOut) => {
                Some(Cycle::Failed { error: MeasureError::RiseTimeout })
            },
            (Cycle::AwaitingFall { rose_at }, Event::EchoFell { at }) => {
                if rose_at <= at {
                    Some(Cycle::Done { pulse: at - rose_at })
                } else {
                    None
                }
            },
            (Cycle::AwaitingFall { .. }, Event::TimedOut) => {
                Some(Cycle::Failed { error: MeasureError::FallTimeout })
            },
            _ => None,
        };
        match following {
            Some(cycle) => {
                *self = cycle;
                Some(cycle.action())
            },
            None => None,
        }
    }
}

} // verus!
