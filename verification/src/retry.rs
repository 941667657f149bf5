//! What an engine does when a step fails: which failures are retried, which
//! stop the engine, and how long it waits before it tries again.

use crate::finality::FinalityError;
use crate::lane_sync::{DeliverySelection, LaneError, LaneStep};
use vstd::prelude::*;

verus! {

/// The kinds of failure that an engine meets.
#[derive(Clone, Copy, Debug, PartialEq, Eq, Structural)]
pub enum ErrorKind {
    /// A call to a chain timed out, or the connection was lost.
    TransientNetwork,
    /// The chain has moved past the header or the nonces that a proof was
    /// built for.
    StaleProof,
    /// The chain has refused a submitted transaction.
    RejectedByChain,
    /// The chains report what no run of the protocol leads to.
    ProtocolInvariantViolation,
    /// The descriptors of the chains do not fit one another.
    ConfigurationError,
}

/// What an engine does about a failure.
#[derive(Clone, Copy, Debug, PartialEq, Eq, Structural)]
pub enum Reaction {
    /// The same step is tried again after a delay; the state stays as it is.
    RetryAfterDelay,
    /// The proof is thrown away, and the next step builds one from the
    /// state that the chains report then.
    RebuildProof,
    /// The next step starts from the state that the chains report then.
    RecomputeState,
    /// The engine stops and tells the operator.
    Halt,
}

impl ErrorKind {
    /// Whether the failure stops the engine.
    pub open spec fn spec_is_fatal(self) -> bool {
        self == ErrorKind::ProtocolInvariantViolation || self == ErrorKind::ConfigurationError
    }

    /// What the engine does about a failure of this kind.
    pub open spec fn spec_reaction(self) -> Reaction {
        match self {
            ErrorKind::TransientNetwork => Reaction::RetryAfterDelay,
            ErrorKind::StaleProof => Reaction::RebuildProof,
            ErrorKind::RejectedByChain => Reaction::RecomputeState,
            ErrorKind::ProtocolInvariantViolation => Reaction::Halt,
            ErrorKind::ConfigurationError => Reaction::Halt,
        }
    }

    /// Whether the failure stops the engine: only a violated invariant of
    /// the protocol and a configuration that does not fit do.
    pub fn is_fatal(&self) -> (fatal: bool)
        ensures
            fatal == self.spec_is_fatal(),
            fatal == (self.spec_reaction() == Reaction::Halt),
    {
        match self {
            ErrorKind::ProtocolInvariantViolation => true,
            ErrorKind::ConfigurationError => true,
            _ => false,
        }
    }

    /// What the engine does about a failure of this kind.
    pub fn reaction(&self) -> (reaction: Reaction)
        ensures
            reaction == self.spec_reaction(),
    {
        match self {
            ErrorKind::TransientNetwork => Reaction::RetryAfterDelay,
            ErrorKind::StaleProof => Reaction::RebuildProof,
            ErrorKind::RejectedByChain => Reaction::RecomputeState,
            ErrorKind::ProtocolInvariantViolation => Reaction::Halt,
            ErrorKind::ConfigurationError => Reaction::Halt,
        }
    }
}

/// The kind of a fault of a lane: an invariant of the protocol is violated.
pub fn lane_error_kind(error: &LaneError) -> (kind: ErrorKind)
    ensures
        kind == ErrorKind::ProtocolInvariantViolation,
{
    ErrorKind::ProtocolInvariantViolation
}

/// The kind of a regression of finality: an invariant of the protocol is
/// violated.
pub fn finality_error_kind(error: &FinalityError) -> (kind: ErrorKind)
    ensures
        kind == ErrorKind::ProtocolInvariantViolation,
{
    ErrorKind::ProtocolInvariantViolation
}

/// What stops a step of a lane, if anything: a first message that alone
/// breaks the limits of a delivery shows that the limits do not fit the
/// lane.
pub fn lane_step_failure(step: &LaneStep) -> (kind: Option<ErrorKind>)
    ensures
        kind == (if step.selection is Oversized {
            Some(ErrorKind::ConfigurationError)
        } else {
            None
        }),
{
    match step.selection {
        DeliverySelection::Oversized { nonce } => Some(ErrorKind::ConfigurationError),
        _ => None,
    }
}

/// `delay` doubled, but no more than `max`.
pub open spec fn doubled(delay: u64, max: u64) -> int {
    if 2 * delay > max {
        max as int
    } else {
        2 * delay
    }
}

/// The delays between the tries of a step that keeps failing: they double
/// from `initial` on and never exceed `max`.
#[derive(Clone, Copy, Debug, PartialEq, Eq, Structural)]
pub struct Backoff {
    initial: u64,
    max: u64,
    current: u64,
}

impl Backoff {
    /// The first delay.
    pub closed spec fn initial(self) -> u64 {
        self.initial
    }

    /// The longest delay.
    pub closed spec fn max(self) -> u64 {
        self.max
    }

    /// The delay before the next try.
    pub closed spec fn current(self) -> u64 {
        self.current
    }

    /// Delays that start at `initial` and stay within `max`; an `initial`
    /// above `max` is cut to it.
    pub fn new(initial: u64, max: u64) -> (backoff: Backoff)
        ensures
            backoff.max() == max,
            backoff.initial() == (if initial > max {
                max
            } else {
                initial
            }),
            backoff.current() == backoff.initial(),
    {
        let initial = if initial > max {
            max
        } else {
            initial
        };
        Backoff { initial, max, current: initial }
    }

    /// The delay before the next try.
    pub fn delay(&self) -> (delay: u64)
        ensures
            delay == self.current(),
    {
        self.current
    }

    /// Takes note of a failed try: gives the delay to wait now, and doubles
    /// the next one within the bound.
    pub fn on_failure(&mut self) -> (delay: u64)
        ensures
            delay == old(self).current(),
            final(self).current() == doubled(old(self).current(), old(self).max()),
            final(self).initial() == old(self).initial(),
            final(self).max() == old(self).max(),
    {
        let delay = self.current;
        self.current = if delay > self.max / 2 {
            self.max
        } else {
            2 * delay
        };
        delay
    }

    /// Takes note of a try that succeeded: the next failure waits the first
    /// delay again.
    pub fn on_success(&mut self)
        ensures
            final(self).current() == old(self).initial(),
            final(self).initial() == old(self).initial(),
            final(self).max() == old(self).max(),
    {
        self.current = self.initial;
    }
}

/// However often a step fails, its delay stays within the bound.
pub proof fn lemma_backoff_is_bounded(delay: u64, max: u64)
    requires
        delay <= max,
    ensures
        delay <= doubled(delay, max) <= max,
        delay > 0 && delay < max ==> delay < doubled(delay, max),
{
}

} // verus!
