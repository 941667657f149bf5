//! The message lane sync engine of one lane in one direction: it follows
//! what was generated, received and confirmed, and decides what is submitted
//! next.

use crate::chain::{ChainConstants, LaneId, MessageNonce, Weight};
use crate::conversion_rate::{needs_update, select_conversion_rate_update};
use crate::fee::{
    bridged_balance_to_this_balance, converted_balance, delivery_size, delivery_weight,
    estimate_delivery_of_length, identity_fee_payment, transaction_payment_identity_fee,
    MessageTransaction,
};
use crate::fixed::{saturate_u128, FixedU128};
use crate::lane::{
    entries_are_ordered, lemma_delivery_keeps_order, rewarded_in, rewards_for_confirmation,
    Delivery, InboundLaneData, LaneBounds, LaneModel, MessagesProof, OutboundLaneData, RelayerId,
    RelayerReward, UnrewardedRelayer,
};
use crate::strategy::{RelayCandidate, RelayDecision, RelayStrategy};
use vstd::prelude::*;

verus! {

/// What makes the state of a lane, as read from the two chains, impossible.
#[derive(Clone, Copy, Debug, PartialEq, Eq, Structural)]
pub enum LaneError {
    /// The source chain has confirmed more than the target chain received.
    ConfirmedBeyondReceived,
    /// The target chain has received more than the source chain generated.
    ReceivedBeyondGenerated,
    /// The lane holds more entries of unrewarded relayers than it may.
    TooManyUnrewardedRelayers,
    /// The entries of the unrewarded relayers leave a gap, overlap, or do
    /// not end at the latest received nonce.
    NonceGap,
    /// A chain reports a nonce below the one it reported before.
    NonceRegression,
}

/// The lane that the two chains report.
pub open spec fn observed_lane(
    lane: LaneId,
    bounds: LaneBounds,
    outbound: OutboundLaneData,
    inbound: InboundLaneData,
) -> LaneModel {
    LaneModel {
        lane: lane@,
        bounds,
        generated: outbound.latest_generated_nonce as nat,
        confirmed: outbound.latest_received_nonce as nat,
        received: inbound.latest_received_nonce as nat,
        relayers: inbound.relayers@,
    }
}

/// What is wrong with a lane, if anything: the first of the four faults
/// that holds of it.
pub open spec fn lane_fault(lane: LaneModel) -> Option<LaneError> {
    if lane.confirmed > lane.received {
        Some(LaneError::ConfirmedBeyondReceived)
    } else if lane.received > lane.generated {
        Some(LaneError::ReceivedBeyondGenerated)
    } else if lane.relayers.len() > lane.bounds.max_unrewarded_relayer_entries {
        Some(LaneError::TooManyUnrewardedRelayers)
    } else if !lane.relayers_are_ordered() {
        Some(LaneError::NonceGap)
    } else {
        None
    }
}

/// What is wrong with a lane that is read again, if anything: a fault of the
/// lane as it is reported now, or else a nonce that has fallen since it was
/// read before.
pub open spec fn refresh_fault(before: LaneModel, now: LaneModel) -> Option<LaneError> {
    if lane_fault(now) is Some {
        lane_fault(now)
    } else if now.generated < before.generated || now.confirmed < before.confirmed || now.received
        < before.received {
        Some(LaneError::NonceRegression)
    } else {
        None
    }
}

/// The delivery that submitting `proof` on behalf of `relayer` makes.
pub open spec fn delivery_of(proof: MessagesProof, relayer: RelayerId) -> Delivery {
    Delivery {
        lane: proof.lane@,
        begin: proof.nonces_start as nat,
        end: proof.nonces_end as nat,
        relayer,
    }
}

/// Whether two lane identifiers are the same.
pub fn same_lane(a: &LaneId, b: &LaneId) -> (same: bool)
    ensures
        same == (a@ == b@),
{
    let same = a[0] == b[0] && a[1] == b[1] && a[2] == b[2] && a[3] == b[3];
    proof {
        if same {
            assert(a@ =~= b@);
        }
    }
    same
}

/// Whether the entries follow one another without a gap and end at
/// `received`.
fn relayers_are_ordered(relayers: &Vec<UnrewardedRelayer>, received: MessageNonce) -> (ordered:
    bool)
    ensures
        ordered == entries_are_ordered(relayers@, received as nat),
{
    let len = relayers.len();
    let mut i: usize = 0;
    while i < len
        invariant
            i <= len,
            len == relayers.len(),
            forall|j: int| 0 <= j < i ==> 1 <= (#[trigger] relayers@[j]).begin <= relayers@[j].end,
            forall|j: int|
                0 <= j < i && j < len - 1 ==> (#[trigger] relayers@[j]).end + 1 == relayers@[j
                    + 1].begin,
        decreases len - i,
    {
        let entry = relayers[i];
        if entry.begin < 1 || entry.begin > entry.end {
            return false;
        }
        if i + 1 < len {
            let next = relayers[i + 1];
            if entry.end == MessageNonce::MAX || entry.end + 1 != next.begin {
                return false;
            }
        }
        i += 1;
    }
    if len > 0 {
        let last = relayers[len - 1];
        last.end == received
    } else {
        true
    }
}

/// What the relay knows of one lane in one direction.
#[derive(Debug)]
pub struct LaneSyncState {
    lane: LaneId,
    bounds: LaneBounds,
    source_latest_generated: MessageNonce,
    source_latest_confirmed: MessageNonce,
    target_latest_received: MessageNonce,
    target_unrewarded_relayers: Vec<UnrewardedRelayer>,
}

impl LaneSyncState {
    /// The lane as mathematical values.
    pub closed spec fn view(&self) -> LaneModel {
        LaneModel {
            lane: self.lane@,
            bounds: self.bounds,
            generated: self.source_latest_generated as nat,
            confirmed: self.source_latest_confirmed as nat,
            received: self.target_latest_received as nat,
            relayers: self.target_unrewarded_relayers@,
        }
    }

    /// The identifier of the lane.
    pub closed spec fn spec_lane(&self) -> LaneId {
        self.lane
    }

    /// What every state holds that was taken up from the chains and
    /// changed by the engine alone.
    pub open spec fn wf(&self) -> bool {
        self@.wf()
    }

    /// Takes up the state that the two chains report. A state that no run
    /// of the protocol leads to is refused, with the first fault found.
    pub fn new(
        lane: LaneId,
        bounds: LaneBounds,
        outbound: &OutboundLaneData,
        inbound: &InboundLaneData,
    ) -> (state: Result<LaneSyncState, LaneError>)
        ensures
            match state {
                Ok(s) => lane_fault(observed_lane(lane, bounds, *outbound, *inbound)) is None && s@
                    == observed_lane(lane, bounds, *outbound, *inbound) && s.spec_lane() == lane
                    && s.wf(),
                Err(e) => lane_fault(observed_lane(lane, bounds, *outbound, *inbound)) == Some(e),
            },
    {
        if outbound.latest_received_nonce > inbound.latest_received_nonce {
            return Err(LaneError::ConfirmedBeyondReceived);
        }
        if inbound.latest_received_nonce > outbound.latest_generated_nonce {
            return Err(LaneError::ReceivedBeyondGenerated);
        }
        if inbound.relayers.len() as u128 > bounds.max_unrewarded_relayer_entries as u128 {
            return Err(LaneError::TooManyUnrewardedRelayers);
        }
        if !relayers_are_ordered(&inbound.relayers, inbound.latest_received_nonce) {
            return Err(LaneError::NonceGap);
        }
        let mut relayers: Vec<UnrewardedRelayer> = Vec::new();
        let mut i: usize = 0;
        while i < inbound.relayers.len()
            invariant
                i <= inbound.relayers.len(),
                relayers@ == inbound.relayers@.take(i as int),
            decreases inbound.relayers.len() - i,
        {
            relayers.push(inbound.relayers[i]);
            i += 1;
        }
        assert(inbound.relayers@.take(inbound.relayers.len() as int) =~= inbound.relayers@);
        Ok(
            LaneSyncState {
                lane,
                bounds,
                source_latest_generated: outbound.latest_generated_nonce,
                source_latest_confirmed: outbound.latest_received_nonce,
                target_latest_received: inbound.latest_received_nonce,
                target_unrewarded_relayers: relayers,
            },
        )
    }

    /// Takes up the state that the two chains report at the start of a
    /// step. A state that no run of the protocol leads to from the one
    /// before is refused and changes nothing.
    pub fn refresh(&mut self, outbound: &OutboundLaneData, inbound: &InboundLaneData) -> (result:
        Result<(), LaneError>)
        requires
            old(self).wf(),
        ensures
            final(self).wf(),
            match result {
                Ok(()) => {
                    &&& refresh_fault(
                        old(self)@,
                        observed_lane(old(self).spec_lane(), old(self)@.bounds, *outbound, *inbound),
                    ) is None
                    &&& final(self)@ == observed_lane(
                        old(self).spec_lane(),
                        old(self)@.bounds,
                        *outbound,
                        *inbound,
                    )
                },
                Err(error) => {
                    &&& refresh_fault(
                        old(self)@,
                        observed_lane(old(self).spec_lane(), old(self)@.bounds, *outbound, *inbound),
                    ) == Some(error)
                    &&& final(self)@ == old(self)@
                },
            },
    {
        match LaneSyncState::new(self.lane, self.bounds, outbound, inbound) {
            Err(error) => Err(error),
            Ok(state) => {
                if state.source_latest_generated < self.source_latest_generated
                    || state.source_latest_confirmed < self.source_latest_confirmed
                    || state.target_latest_received < self.target_latest_received {
                    Err(LaneError::NonceRegression)
                } else {
                    *self = state;
                    Ok(())
                }
            },
        }
    }

    /// The lane that the engine serves.
    pub fn lane(&self) -> (lane: LaneId)
        ensures
            lane == self.spec_lane(),
            lane@ == self@.lane,
    {
        self.lane
    }

    /// The bounds of the lane.
    pub fn bounds(&self) -> (bounds: LaneBounds)
        ensures
            bounds == self@.bounds,
    {
        self.bounds
    }

    /// Nonce of the latest message that the source chain generated.
    pub fn source_latest_generated(&self) -> (nonce: MessageNonce)
        ensures
            nonce == self@.generated,
    {
        self.source_latest_generated
    }

    /// Nonce of the latest message whose delivery the source chain knows of.
    pub fn source_latest_confirmed(&self) -> (nonce: MessageNonce)
        ensures
            nonce == self@.confirmed,
    {
        self.source_latest_confirmed
    }

    /// Nonce of the latest message that the target chain received.
    pub fn target_latest_received(&self) -> (nonce: MessageNonce)
        ensures
            nonce == self@.received,
    {
        self.target_latest_received
    }

    /// The relayers that the target chain has not rewarded yet.
    pub fn target_unrewarded_relayers(&self) -> (relayers: &Vec<UnrewardedRelayer>)
        ensures
            relayers@ == self@.relayers,
    {
        &self.target_unrewarded_relayers
    }

    /// Takes note of the messages that the source chain has generated.
    pub fn on_messages_generated(&mut self, latest_generated: MessageNonce)
        requires
            old(self).wf(),
        ensures
            final(self)@ == old(self)@.generated_up_to(latest_generated as nat),
            final(self).wf(),
    {
        if latest_generated > self.source_latest_generated {
            self.source_latest_generated = latest_generated;
        }
    }

    /// Takes note of a delivery that was submitted to the target chain:
    /// where the chain accepts it, the lane has received its messages. A
    /// delivery that the chain does not accept changes nothing, so that
    /// submitting one twice is harmless.
    pub fn on_messages_delivered(&mut self, proof: &MessagesProof, relayer: RelayerId) -> (accepted:
        bool)
        requires
            old(self).wf(),
        ensures
            accepted == old(self)@.accepts(delivery_of(*proof, relayer)),
            final(self)@ == old(self)@.delivered(delivery_of(*proof, relayer)),
            final(self).wf(),
    {
        proof {
            lemma_delivery_keeps_order(self@, delivery_of(*proof, relayer));
        }
        let accepted = same_lane(&proof.lane, &self.lane) && proof.nonces_start
            <= self.target_latest_received.saturating_add(1) && self.target_latest_received
            < proof.nonces_end && proof.nonces_end <= self.source_latest_generated
            && (self.target_unrewarded_relayers.len() as u128)
            < self.bounds.max_unrewarded_relayer_entries as u128 && proof.nonces_end
            - self.source_latest_confirmed <= self.bounds.max_unconfirmed_messages;
        if accepted {
            let begin = self.target_latest_received + 1;
            self.target_unrewarded_relayers.push(
                UnrewardedRelayer { relayer, begin, end: proof.nonces_end },
            );
            self.target_latest_received = proof.nonces_end;
        }
        accepted
    }

    /// Takes note of a confirmation that the source chain has accepted: the
    /// messages up to `received` are confirmed, unless they were before or
    /// were never received.
    pub fn on_delivery_confirmed(&mut self, received: MessageNonce) -> (changed: bool)
        requires
            old(self).wf(),
        ensures
            changed == (old(self)@.confirmed < received <= old(self)@.received),
            final(self)@ == old(self)@.confirmed_up_to(received as nat),
            final(self).wf(),
    {
        if self.source_latest_confirmed < received && received <= self.target_latest_received {
            self.source_latest_confirmed = received;
            true
        } else {
            false
        }
    }

    /// What the relayers are rewarded for when the source chain confirms the
    /// messages up to `received`: for every entry, the number of its
    /// messages that were not confirmed before.
    pub fn rewards_due(&self, received: MessageNonce) -> (rewards: Vec<RelayerReward>)
        ensures
            rewards.len() == self@.relayers.len(),
            forall|i: int|
                0 <= i < self@.relayers.len() ==> (#[trigger] rewards[i]).relayer
                    == self@.relayers[i].relayer && rewards[i].messages == rewarded_in(
                    self@.relayers[i],
                    self@.confirmed,
                    received as nat,
                ),
    {
        rewards_for_confirmation(
            &self.target_unrewarded_relayers,
            self.source_latest_confirmed,
            received,
        )
    }

    /// The confirmation that is due: the latest received nonce, where the
    /// source chain has not confirmed it yet.
    pub fn confirmation_to_submit(&self) -> (received: Option<MessageNonce>)
        ensures
            self@.confirmed < self@.received <==> received is Some,
            received is Some ==> received->0 == self@.received,
    {
        if self.target_latest_received > self.source_latest_confirmed {
            Some(self.target_latest_received)
        } else {
            None
        }
    }

    /// Selects the messages that are delivered next: the longest run of
    /// waiting messages, from the first one that was not received, that the
    /// lane has room for and that `limits` admits. `pending` holds the
    /// waiting messages in the order of their nonces.
    pub fn select_nonces_to_deliver(
        &self,
        pending: &Vec<MessageDetails>,
        limits: &BatchLimits,
    ) -> (selection: DeliverySelection)
        requires
            self.wf(),
        ensures
            is_selection(self@, pending@, *limits, selection),
    {
        let waiting: MessageNonce = self.source_latest_generated - self.target_latest_received;
        let unconfirmed: MessageNonce = self.target_latest_received - self.source_latest_confirmed;
        let room: MessageNonce = if self.target_unrewarded_relayers.len() as u128
            >= self.bounds.max_unrewarded_relayer_entries as u128 {
            0
        } else if unconfirmed >= self.bounds.max_unconfirmed_messages {
            0
        } else {
            self.bounds.max_unconfirmed_messages - unconfirmed
        };
        let mut most_nonces: MessageNonce = waiting;
        if room < most_nonces {
            most_nonces = room;
        }
        if limits.max_messages < most_nonces {
            most_nonces = limits.max_messages;
        }
        let most: usize = if (pending.len() as u128) < most_nonces as u128 {
            pending.len()
        } else {
            most_nonces as usize
        };
        let mut count: usize = 0;
        let mut size: u32 = 0;
        let mut dispatch_weight: Weight = 0;
        let mut reward: u128 = 0;
        let mut full = false;
        while count < most && !full
            invariant
                count <= most <= pending.len(),
                most as int == most_messages(self@, pending@, *limits),
                size as int == total_size(pending@, count as int),
                size <= limits.max_size,
                dispatch_weight as int == total_weight(pending@, count as int),
                dispatch_weight <= limits.max_weight,
                reward as int == saturate_u128(total_reward(pending@, count as int)),
                batch_fits(self@, pending@, *limits, count as int),
                full ==> !batch_fits(self@, pending@, *limits, count + 1),
            decreases most - count + (if full { 0int } else { 1int }),
        {
            let next = pending[count];
            let next_size: u64 = size as u64 + next.size as u64;
            let next_weight: u128 = dispatch_weight as u128 + next.dispatch_weight as u128;
            if next_size > limits.max_size as u64 || next_weight > limits.max_weight as u128 {
                full = true;
            } else {
                size = next_size as u32;
                dispatch_weight = next_weight as Weight;
                reward = reward.saturating_add(next.reward);
                count += 1;
            }
        }
        if count == 0 {
            if most == 0 {
                DeliverySelection::Nothing
            } else {
                DeliverySelection::Oversized { nonce: self.target_latest_received + 1 }
            }
        } else {
            DeliverySelection::Range {
                begin: self.target_latest_received + 1,
                end: self.target_latest_received + count as MessageNonce,
                size,
                dispatch_weight,
                reward,
            }
        }
    }

    /// Decides what the engine submits on the state as it stands. For the
    /// delivery it selects the messages, estimates what delivering them
    /// costs, and asks `strategy`; for the confirmation it looks whether the
    /// target chain has received more than the source chain knows of; for
    /// the conversion rate it compares the stored rate with the estimate.
    /// Nothing is changed: the state moves when the chains report what was
    /// accepted.
    pub fn plan_step<S: RelayStrategy>(
        &self,
        pending: &Vec<MessageDetails>,
        input: &StepInput,
        strategy: &S,
    ) -> (step: LaneStep)
        requires
            self.wf(),
        ensures
            is_step(self@, pending@, *input, *strategy, step),
    {
        let selection = self.select_nonces_to_deliver(pending, &input.limits);
        let decision = match selection {
            DeliverySelection::Range { begin, end, size, dispatch_weight, reward } => {
                let candidate = RelayCandidate {
                    begin,
                    end,
                    cost: estimate_delivery_cost(&input.pricing, size, dispatch_weight),
                    reward,
                    backlog_age: input.backlog_age,
                    proof_header_finalized: end <= input.provable_up_to,
                };
                Some(strategy.decide(&candidate))
            },
            _ => None,
        };
        let rate_update = match input.rate_estimate {
            Some(estimate) => select_conversion_rate_update(
                input.pricing.conversion_rate,
                estimate,
                input.rate_tolerance,
            ),
            None => None,
        };
        LaneStep { selection, decision, confirmation: self.confirmation_to_submit(), rate_update }
    }

    /// One step of the engine: it takes up the state that the two chains
    /// report, and decides what is submitted. A state that no run of the
    /// protocol leads to from the one before stops the step and changes
    /// nothing.
    pub fn sync_step<S: RelayStrategy>(
        &mut self,
        outbound: &OutboundLaneData,
        inbound: &InboundLaneData,
        pending: &Vec<MessageDetails>,
        input: &StepInput,
        strategy: &S,
    ) -> (result: Result<LaneStep, LaneError>)
        requires
            old(self).wf(),
        ensures
            final(self).wf(),
            match result {
                Ok(step) => {
                    &&& refresh_fault(
                        old(self)@,
                        observed_lane(old(self).spec_lane(), old(self)@.bounds, *outbound, *inbound),
                    ) is None
                    &&& final(self)@ == observed_lane(
                        old(self).spec_lane(),
                        old(self)@.bounds,
                        *outbound,
                        *inbound,
                    )
                    &&& is_step(final(self)@, pending@, *input, *strategy, step)
                },
                Err(error) => {
                    &&& refresh_fault(
                        old(self)@,
                        observed_lane(old(self).spec_lane(), old(self)@.bounds, *outbound, *inbound),
                    ) == Some(error)
                    &&& final(self)@ == old(self)@
                },
            },
    {
        match self.refresh(outbound, inbound) {
            Err(error) => Err(error),
            Ok(()) => Ok(self.plan_step(pending, input, strategy)),
        }
    }
}

/// What the relay knows of a message that waits for delivery.
#[derive(Clone, Copy, Debug, PartialEq, Eq, Structural)]
pub struct MessageDetails {
    /// Size of the payload in bytes.
    pub size: u32,
    /// Weight that dispatching the message takes at the target chain.
    pub dispatch_weight: Weight,
    /// What the sender has paid for the delivery.
    pub reward: u128,
}

/// What one delivery transaction may hold.
#[derive(Clone, Copy, Debug, PartialEq, Eq, Structural)]
pub struct BatchLimits {
    /// Most messages of one delivery.
    pub max_messages: MessageNonce,
    /// Most bytes of payload of one delivery.
    pub max_size: u32,
    /// Most dispatch weight of one delivery.
    pub max_weight: Weight,
}

/// The messages that a step has selected for delivery.
#[derive(Clone, Copy, Debug, PartialEq, Eq, Structural)]
pub enum DeliverySelection {
    /// No message waits, or the lane has no room for one.
    Nothing,
    /// The first waiting message alone breaks the limits of a delivery: the
    /// limits do not fit the lane.
    Oversized { nonce: MessageNonce },
    /// The messages from `begin` to `end`, with their total size, dispatch
    /// weight and reward.
    Range { begin: MessageNonce, end: MessageNonce, size: u32, dispatch_weight: Weight, reward: u128 },
}

/// What a step of the engine submits.
#[derive(Clone, Copy, Debug, PartialEq, Eq, Structural)]
pub struct LaneStep {
    /// The messages that were selected for delivery.
    pub selection: DeliverySelection,
    /// What the strategy decided of them, where a range was selected.
    pub decision: Option<RelayDecision>,
    /// The nonce up to which delivery is confirmed to the source chain, if
    /// a confirmation is due.
    pub confirmation: Option<MessageNonce>,
    /// The conversion rate that the source chain is asked to store, if the
    /// stored one has drifted too far.
    pub rate_update: Option<FixedU128>,
}

/// What a step is decided on, besides the state of the lane: limits and
/// prices as they stand, and what was read from the chains for this step.
#[derive(Clone, Copy, Debug, PartialEq, Eq, Structural)]
pub struct StepInput {
    /// What one delivery transaction may hold.
    pub limits: BatchLimits,
    /// What the estimate of the cost of a delivery rests on.
    pub pricing: DeliveryPricing,
    /// How long the oldest waiting message has been waiting.
    pub backlog_age: u64,
    /// Nonce of the latest message that was generated at a source header
    /// which the target chain has finalized: a range beyond it cannot be
    /// proved yet.
    pub provable_up_to: MessageNonce,
    /// A fresh estimate of the conversion rate, where one is at hand.
    pub rate_estimate: Option<FixedU128>,
    /// The drift of the stored rate from the estimate that is put up with.
    pub rate_tolerance: FixedU128,
}

/// What the estimate of the cost of a delivery rests on.
#[derive(Clone, Copy, Debug, PartialEq, Eq, Structural)]
pub struct DeliveryPricing {
    /// Constants of the target chain.
    pub bridged: ChainConstants,
    /// Extra bytes of a storage proof built at the source chain.
    pub storage_proof_overhead: u32,
    /// Weight that every transaction costs at the target chain.
    pub base_extrinsic_weight: Weight,
    /// Fee multiplier of the target chain.
    pub fee_multiplier: FixedU128,
    /// Rate that turns a balance of the target chain into one of the source
    /// chain.
    pub conversion_rate: FixedU128,
    /// Whether the delivery pays the dispatch fee at the target chain.
    pub include_pay_dispatch_fee_cost: bool,
}

/// Bytes of payload of the first `count` messages.
pub open spec fn total_size(pending: Seq<MessageDetails>, count: int) -> int
    decreases count,
{
    if count <= 0 {
        0
    } else {
        total_size(pending, count - 1) + pending[count - 1].size
    }
}

/// Dispatch weight of the first `count` messages.
pub open spec fn total_weight(pending: Seq<MessageDetails>, count: int) -> int
    decreases count,
{
    if count <= 0 {
        0
    } else {
        total_weight(pending, count - 1) + pending[count - 1].dispatch_weight
    }
}

/// Reward of the first `count` messages.
pub open spec fn total_reward(pending: Seq<MessageDetails>, count: int) -> int
    decreases count,
{
    if count <= 0 {
        0
    } else {
        total_reward(pending, count - 1) + pending[count - 1].reward
    }
}

/// How many more messages the target chain takes on the lane.
pub open spec fn delivery_room(lane: LaneModel) -> int {
    if lane.relayers.len() >= lane.bounds.max_unrewarded_relayer_entries {
        0
    } else if lane.received - lane.confirmed >= lane.bounds.max_unconfirmed_messages {
        0
    } else {
        lane.bounds.max_unconfirmed_messages - (lane.received - lane.confirmed)
    }
}

/// The most messages that one delivery can hold, whatever their size and
/// weight: no more than wait, than the lane has room for, and than the
/// limits admit.
pub open spec fn most_messages(
    lane: LaneModel,
    pending: Seq<MessageDetails>,
    limits: BatchLimits,
) -> int {
    let waiting = lane.generated - lane.received;
    let room = delivery_room(lane);
    let by_lane = if waiting < room {
        waiting
    } else {
        room
    };
    let by_limits = if limits.max_messages < by_lane {
        limits.max_messages as int
    } else {
        by_lane
    };
    if pending.len() < by_limits {
        pending.len() as int
    } else {
        by_limits
    }
}

/// Whether the first `count` waiting messages make one delivery.
pub open spec fn batch_fits(
    lane: LaneModel,
    pending: Seq<MessageDetails>,
    limits: BatchLimits,
    count: int,
) -> bool {
    &&& 0 <= count <= most_messages(lane, pending, limits)
    &&& total_size(pending, count) <= limits.max_size
    &&& total_weight(pending, count) <= limits.max_weight
}

/// Whether `selection` is what a step selects on `lane`: nothing where no
/// message can be delivered, the first message as oversized where it alone
/// breaks the limits, and else the longest run of messages that fits, from
/// the first message that was not received.
pub open spec fn is_selection(
    lane: LaneModel,
    pending: Seq<MessageDetails>,
    limits: BatchLimits,
    selection: DeliverySelection,
) -> bool {
    match selection {
        DeliverySelection::Nothing => most_messages(lane, pending, limits) == 0,
        DeliverySelection::Oversized { nonce } => {
            &&& most_messages(lane, pending, limits) >= 1
            &&& !batch_fits(lane, pending, limits, 1)
            &&& nonce == lane.received + 1
        },
        DeliverySelection::Range { begin, end, size, dispatch_weight, reward } => {
            let count = end - lane.received;
            &&& begin == lane.received + 1
            &&& 1 <= count
            &&& batch_fits(lane, pending, limits, count)
            &&& count < most_messages(lane, pending, limits) ==> !batch_fits(
                lane,
                pending,
                limits,
                count + 1,
            )
            &&& size == total_size(pending, count)
            &&& dispatch_weight == total_weight(pending, count)
            &&& reward == saturate_u128(total_reward(pending, count))
        },
    }
}

/// The totals of a longer run of messages are no smaller than those of a
/// shorter one.
pub proof fn lemma_totals_grow(pending: Seq<MessageDetails>, fewer: int, more: int)
    requires
        fewer <= more,
    ensures
        total_size(pending, fewer) <= total_size(pending, more),
        total_weight(pending, fewer) <= total_weight(pending, more),
        total_reward(pending, fewer) <= total_reward(pending, more),
        0 <= total_size(pending, fewer),
        0 <= total_weight(pending, fewer),
        0 <= total_reward(pending, fewer),
    decreases more - fewer, more,
{
    if fewer < more {
        lemma_totals_grow(pending, fewer, more - 1);
    } else if fewer > 0 {
        lemma_totals_grow(pending, fewer - 1, fewer - 1);
    }
}

/// A lane, its waiting messages and the limits leave one selection only.
pub proof fn lemma_selection_is_unique(
    lane: LaneModel,
    pending: Seq<MessageDetails>,
    limits: BatchLimits,
    first: DeliverySelection,
    second: DeliverySelection,
)
    requires
        is_selection(lane, pending, limits, first),
        is_selection(lane, pending, limits, second),
    ensures
        first == second,
{
    lemma_totals_grow(pending, 0, 1);
    match (first, second) {
        (
            DeliverySelection::Range { end: first_end, .. },
            DeliverySelection::Range { end: second_end, .. },
        ) => {
            let a = first_end - lane.received;
            let b = second_end - lane.received;
            if a < b {
                lemma_totals_grow(pending, a + 1, b);
            } else if b < a {
                lemma_totals_grow(pending, b + 1, a);
            }
        },
        (DeliverySelection::Range { end, .. }, DeliverySelection::Oversized { .. }) => {
            lemma_totals_grow(pending, 1, end - lane.received);
        },
        (DeliverySelection::Oversized { .. }, DeliverySelection::Range { end, .. }) => {
            lemma_totals_grow(pending, 1, end - lane.received);
        },
        _ => {},
    }
}

/// The range that a step selects is one that the target chain accepts,
/// whoever submits it.
pub proof fn lemma_selected_range_is_accepted(
    lane: LaneModel,
    pending: Seq<MessageDetails>,
    limits: BatchLimits,
    selection: DeliverySelection,
    relayer: RelayerId,
)
    requires
        lane.wf(),
        is_selection(lane, pending, limits, selection),
        selection is Range,
    ensures
        lane.accepts(
            Delivery {
                lane: lane.lane,
                begin: selection->begin as nat,
                end: selection->end as nat,
                relayer,
            },
        ),
{
}

/// What delivering `size` bytes of payload with `dispatch_weight` costs the
/// relayer, in the balance of the source chain: the fee of the delivery
/// transaction at the target chain, converted at the rate.
pub open spec fn delivery_cost(pricing: DeliveryPricing, size: u32, dispatch_weight: Weight) -> int {
    let transaction = MessageTransaction {
        dispatch_weight: delivery_weight(
            pricing.bridged,
            size as int,
            pricing.include_pay_dispatch_fee_cost,
            dispatch_weight as int,
        ) as Weight,
        size: delivery_size(
            size as int,
            pricing.storage_proof_overhead as int,
            pricing.bridged.tx_extra_bytes as int,
        ) as u32,
    };
    let fee_at_target = identity_fee_payment(
        pricing.base_extrinsic_weight,
        1,
        pricing.fee_multiplier,
        transaction,
    );
    saturate_u128(converted_balance(fee_at_target, pricing.conversion_rate))
}

/// Estimates what delivering `size` bytes of payload with `dispatch_weight`
/// costs the relayer, in the balance of the source chain.
pub fn estimate_delivery_cost(pricing: &DeliveryPricing, size: u32, dispatch_weight: Weight) -> (cost:
    u128)
    ensures
        cost as int == delivery_cost(*pricing, size, dispatch_weight),
{
    let transaction = estimate_delivery_of_length(
        &pricing.bridged,
        pricing.storage_proof_overhead,
        size,
        pricing.include_pay_dispatch_fee_cost,
        dispatch_weight,
    );
    let fee_at_target = transaction_payment_identity_fee(
        pricing.base_extrinsic_weight,
        1,
        pricing.fee_multiplier,
        transaction,
    );
    bridged_balance_to_this_balance(fee_at_target, None, pricing.conversion_rate)
}

/// The candidate that the strategy is asked about when a range was
/// selected. Its proof can be verified where the target chain has finalized
/// a source header at which all its messages were generated.
pub open spec fn candidate_of(
    selection: DeliverySelection,
    pricing: DeliveryPricing,
    backlog_age: u64,
    provable_up_to: MessageNonce,
) -> RelayCandidate
    recommends
        selection is Range,
{
    RelayCandidate {
        begin: selection->begin,
        end: selection->end,
        cost: delivery_cost(pricing, selection->size, selection->dispatch_weight) as u128,
        reward: selection->reward,
        backlog_age,
        proof_header_finalized: selection->end <= provable_up_to,
    }
}

/// The conversion rate that a step asks the source chain to store: the
/// estimate, where one is at hand and the stored rate has drifted from it
/// by more than the tolerance.
pub open spec fn planned_rate_update(input: StepInput) -> Option<FixedU128> {
    match input.rate_estimate {
        Some(estimate) => if needs_update(
            input.pricing.conversion_rate,
            estimate,
            input.rate_tolerance,
        ) {
            Some(estimate)
        } else {
            None
        },
        None => None,
    }
}

/// Whether `step` is what the engine decides on `lane`: the selection of
/// the messages, what the strategy decides of it, the confirmation where
/// the target chain has received more than is confirmed, and the update of
/// the conversion rate.
pub open spec fn is_step<S: RelayStrategy>(
    lane: LaneModel,
    pending: Seq<MessageDetails>,
    input: StepInput,
    strategy: S,
    step: LaneStep,
) -> bool {
    &&& is_selection(lane, pending, input.limits, step.selection)
    &&& step.decision == planned_decision(
        step.selection,
        input.pricing,
        strategy,
        input.backlog_age,
        input.provable_up_to,
    )
    &&& step.confirmation == (if lane.confirmed < lane.received {
        Some(lane.received as MessageNonce)
    } else {
        None
    })
    &&& step.rate_update == planned_rate_update(input)
}

/// What a step decides of its selection: the decision of the strategy on
/// the candidate where a range was selected, and nothing else.
pub open spec fn planned_decision<S: RelayStrategy>(
    selection: DeliverySelection,
    pricing: DeliveryPricing,
    strategy: S,
    backlog_age: u64,
    provable_up_to: MessageNonce,
) -> Option<RelayDecision> {
    if selection is Range {
        Some(
            strategy.decision(
                candidate_of(selection, pricing, backlog_age, provable_up_to),
            ),
        )
    } else {
        None
    }
}

} // verus!
