//! Relay strategies: whether a range of messages is delivered now, skipped,
//! or held back until the target chain can verify its proof.

use crate::chain::MessageNonce;
use vstd::prelude::*;

verus! {

/// What a strategy decides of a range of messages.
#[derive(Clone, Copy, Debug, PartialEq, Eq, Structural)]
pub enum RelayDecision {
    /// The range is delivered in this step.
    RelayNow,
    /// The range is not delivered in this step: it does not pay.
    Skip,
    /// The range cannot be delivered yet: the target chain does not trust
    /// the header that its proof is built at.
    Wait,
}

/// A range of messages that may be delivered, with what the strategy needs
/// to know of it.
#[derive(Clone, Copy, Debug, PartialEq, Eq, Structural)]
pub struct RelayCandidate {
    /// Nonce of the first message.
    pub begin: MessageNonce,
    /// Nonce of the last message.
    pub end: MessageNonce,
    /// What the delivery is estimated to cost the relayer.
    pub cost: u128,
    /// What the senders have paid for the delivery.
    pub reward: u128,
    /// How long the oldest message of the range has been waiting.
    pub backlog_age: u64,
    /// Whether the target chain has finalized the source header that the
    /// proof is built at.
    pub proof_header_finalized: bool,
}

/// A policy that decides which ranges are delivered.
pub trait RelayStrategy {
    /// What the strategy decides of `candidate`.
    spec fn decision(&self, candidate: RelayCandidate) -> RelayDecision;

    /// Decides whether `candidate` is delivered now.
    fn decide(&self, candidate: &RelayCandidate) -> (decision: RelayDecision)
        ensures
            decision == self.decision(*candidate),
    ;
}

/// Whether the reward of `candidate` covers its cost.
pub open spec fn is_profitable(candidate: RelayCandidate) -> bool {
    candidate.cost <= candidate.reward
}

/// Delivers every range as soon as its proof can be verified.
#[derive(Clone, Copy, Debug)]
pub struct AltruisticStrategy;

impl RelayStrategy for AltruisticStrategy {
    open spec fn decision(&self, candidate: RelayCandidate) -> RelayDecision {
        if !candidate.proof_header_finalized {
            RelayDecision::Wait
        } else {
            RelayDecision::RelayNow
        }
    }

    fn decide(&self, candidate: &RelayCandidate) -> (decision: RelayDecision) {
        if !candidate.proof_header_finalized {
            RelayDecision::Wait
        } else {
            RelayDecision::RelayNow
        }
    }
}

/// Delivers only the ranges whose reward covers their cost.
#[derive(Clone, Copy, Debug)]
pub struct RationalStrategy;

impl RelayStrategy for RationalStrategy {
    open spec fn decision(&self, candidate: RelayCandidate) -> RelayDecision {
        if !candidate.proof_header_finalized {
            RelayDecision::Wait
        } else if is_profitable(candidate) {
            RelayDecision::RelayNow
        } else {
            RelayDecision::Skip
        }
    }

    fn decide(&self, candidate: &RelayCandidate) -> (decision: RelayDecision) {
        if !candidate.proof_header_finalized {
            RelayDecision::Wait
        } else if candidate.cost <= candidate.reward {
            RelayDecision::RelayNow
        } else {
            RelayDecision::Skip
        }
    }
}

/// Delivers the ranges that pay, and those that do not pay once their
/// oldest message has waited longer than `max_backlog_age`: stale fee
/// parameters never stop a lane for good.
#[derive(Clone, Copy, Debug, PartialEq, Eq, Structural)]
pub struct MixStrategy {
    /// The age beyond which a range is delivered whatever it costs.
    pub max_backlog_age: u64,
}

impl RelayStrategy for MixStrategy {
    open spec fn decision(&self, candidate: RelayCandidate) -> RelayDecision {
        if !candidate.proof_header_finalized {
            RelayDecision::Wait
        } else if is_profitable(candidate) || candidate.backlog_age > self.max_backlog_age {
            RelayDecision::RelayNow
        } else {
            RelayDecision::Skip
        }
    }

    fn decide(&self, candidate: &RelayCandidate) -> (decision: RelayDecision) {
        let rational = RationalStrategy.decide(candidate);
        match rational {
            RelayDecision::Skip => {
                if candidate.backlog_age > self.max_backlog_age {
                    AltruisticStrategy.decide(candidate)
                } else {
                    RelayDecision::Skip
                }
            },
            _ => rational,
        }
    }
}

/// The mixed strategy delivers whatever the rational one delivers, waits
/// where it waits, and differs from it only on ranges older than its
/// threshold, which it delivers as the altruistic one does.
pub proof fn lemma_mix_blends(strategy: MixStrategy, candidate: RelayCandidate)
    ensures
        RationalStrategy.decision(candidate) != RelayDecision::Skip ==> strategy.decision(candidate)
            == RationalStrategy.decision(candidate),
        candidate.backlog_age > strategy.max_backlog_age ==> strategy.decision(candidate)
            == AltruisticStrategy.decision(candidate),
        RationalStrategy.decision(candidate) == RelayDecision::Skip && candidate.backlog_age
            <= strategy.max_backlog_age ==> strategy.decision(candidate) == RelayDecision::Skip,
{
}

/// A range that does not pay is skipped while it is young and delivered
/// once it is older than the threshold, where its proof can be verified.
pub proof fn lemma_unprofitable_range_is_delivered_when_old(
    strategy: MixStrategy,
    young: RelayCandidate,
    old_one: RelayCandidate,
)
    requires
        !is_profitable(young),
        young.proof_header_finalized,
        young.backlog_age <= strategy.max_backlog_age,
        old_one == (RelayCandidate { backlog_age: old_one.backlog_age, ..young }),
        old_one.backlog_age > strategy.max_backlog_age,
    ensures
        strategy.decision(young) == RelayDecision::Skip,
        strategy.decision(old_one) == RelayDecision::RelayNow,
{
}

} // verus!
