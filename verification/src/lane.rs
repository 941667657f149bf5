//! The message lane: what the relay knows of one lane in one direction, how
//! deliveries and confirmations change it, and which nonces are delivered
//! next.

use crate::chain::{LaneId, MessageNonce};
use vstd::prelude::*;

verus! {

/// Identifies the account of a relayer.
pub type RelayerId = [u8; 32];

/// A relayer and the messages it has delivered without being rewarded yet.
#[derive(Clone, Copy, Debug, PartialEq, Eq)]
pub struct UnrewardedRelayer {
    /// The relayer that delivered the messages.
    pub relayer: RelayerId,
    /// Nonce of the first message.
    pub begin: MessageNonce,
    /// Nonce of the last message.
    pub end: MessageNonce,
}

/// State of a lane at the chain that sends its messages.
#[derive(Clone, Copy, Debug, PartialEq, Eq, Structural)]
pub struct OutboundLaneData {
    /// Nonce of the latest message that was generated.
    pub latest_generated_nonce: MessageNonce,
    /// Nonce of the latest message whose delivery was confirmed.
    pub latest_received_nonce: MessageNonce,
}

/// State of a lane at the chain that receives its messages.
#[derive(Clone, Debug, PartialEq, Eq)]
pub struct InboundLaneData {
    /// Nonce of the latest message that was received.
    pub latest_received_nonce: MessageNonce,
    /// The relayers that delivered messages and were not rewarded yet, in
    /// the order of their deliveries.
    pub relayers: Vec<UnrewardedRelayer>,
}

/// A message of a lane. It never changes once it was generated.
#[derive(Clone, Debug, PartialEq, Eq)]
pub struct Message {
    pub lane: LaneId,
    pub nonce: MessageNonce,
    pub payload: Vec<u8>,
}

/// Proof that the messages of a range of nonces were generated at the
/// source chain.
#[derive(Clone, Debug, PartialEq, Eq)]
pub struct MessagesProof {
    /// Hash of the source header that the proof was built at.
    pub bridged_header_hash: Vec<u8>,
    /// The nodes of the storage proof.
    pub storage_proof: Vec<Vec<u8>>,
    /// The lane of the messages.
    pub lane: LaneId,
    /// Nonce of the first message.
    pub nonces_start: MessageNonce,
    /// Nonce of the last message.
    pub nonces_end: MessageNonce,
}

/// Proof of the state of a lane at the target chain.
#[derive(Clone, Debug, PartialEq, Eq)]
pub struct MessagesDeliveryProof {
    /// Hash of the target header that the proof was built at.
    pub bridged_header_hash: Vec<u8>,
    /// The nodes of the storage proof.
    pub storage_proof: Vec<Vec<u8>>,
    /// The lane whose state is proved.
    pub lane: LaneId,
}

/// Bytes that the nodes of a storage proof hold together.
pub open spec fn nodes_size(nodes: Seq<Vec<u8>>) -> int
    decreases nodes.len(),
{
    if nodes.len() == 0 {
        0
    } else {
        nodes_size(nodes.drop_last()) + nodes.last()@.len()
    }
}

/// `x`, or `u64::MAX` where it is larger.
pub open spec fn at_most_u64(x: int) -> int {
    if x > u64::MAX as int {
        u64::MAX as int
    } else {
        x
    }
}

/// Counts the bytes that the nodes of a storage proof hold together; the
/// count saturates.
pub fn storage_proof_size(nodes: &Vec<Vec<u8>>) -> (size: u64)
    ensures
        size as int == at_most_u64(nodes_size(nodes@)),
{
    let mut size: u64 = 0;
    let mut i: usize = 0;
    while i < nodes.len()
        invariant
            i <= nodes.len(),
            0 <= nodes_size(nodes@.take(i as int)),
            size as int == at_most_u64(nodes_size(nodes@.take(i as int))),
        decreases nodes.len() - i,
    {
        let len = nodes[i].len();
        assert(nodes@.take(i + 1).drop_last() =~= nodes@.take(i as int));
        size = if len as u128 > u64::MAX as u128 {
            u64::MAX
        } else {
            size.saturating_add(len as u64)
        };
        i += 1;
    }
    assert(nodes@.take(nodes.len() as int) =~= nodes@);
    size
}

impl MessagesProof {
    /// Bytes of the proof as mathematical value: the header hash, the nodes
    /// of the storage proof, the lane, and the two nonces.
    pub open spec fn spec_size(&self) -> int {
        self.bridged_header_hash@.len() + nodes_size(self.storage_proof@) + 4 + 16
    }

    /// Bytes that the proof takes in a transaction, besides what their
    /// encoding adds; the count saturates.
    pub fn size(&self) -> (size: u64)
        ensures
            size as int == at_most_u64(self.spec_size()),
    {
        let hash_len = self.bridged_header_hash.len();
        let fixed: u64 = if hash_len as u128 > (u64::MAX - 20) as u128 {
            u64::MAX
        } else {
            hash_len as u64 + 20
        };
        fixed.saturating_add(storage_proof_size(&self.storage_proof))
    }
}

impl MessagesDeliveryProof {
    /// Bytes of the proof as mathematical value: the header hash, the nodes
    /// of the storage proof, and the lane.
    pub open spec fn spec_size(&self) -> int {
        self.bridged_header_hash@.len() + nodes_size(self.storage_proof@) + 4
    }

    /// Bytes that the proof takes in a transaction, besides what their
    /// encoding adds; the count saturates.
    pub fn size(&self) -> (size: u64)
        ensures
            size as int == at_most_u64(self.spec_size()),
    {
        let hash_len = self.bridged_header_hash.len();
        let fixed: u64 = if hash_len as u128 > (u64::MAX - 4) as u128 {
            u64::MAX
        } else {
            hash_len as u64 + 4
        };
        fixed.saturating_add(storage_proof_size(&self.storage_proof))
    }
}

/// What a relayer is rewarded for when a delivery is confirmed.
#[derive(Clone, Copy, Debug, PartialEq, Eq)]
pub struct RelayerReward {
    /// The relayer that is rewarded.
    pub relayer: RelayerId,
    /// Number of its messages that the confirmation covers.
    pub messages: MessageNonce,
}

/// Number of the messages of `entry` that a confirmation covers which
/// raises the confirmed nonce from `confirmed` to `up_to`.
pub open spec fn rewarded_in(entry: UnrewardedRelayer, confirmed: nat, up_to: nat) -> nat {
    let first = if entry.begin > confirmed {
        entry.begin as nat
    } else {
        confirmed + 1
    };
    let last = if entry.end < up_to {
        entry.end as nat
    } else {
        up_to
    };
    if first <= last {
        (last - first + 1) as nat
    } else {
        0
    }
}

/// Number of the messages of all the entries that such a confirmation
/// covers.
pub open spec fn total_rewarded(relayers: Seq<UnrewardedRelayer>, confirmed: nat, up_to: nat) -> nat
    decreases relayers.len(),
{
    if relayers.len() == 0 {
        0
    } else {
        total_rewarded(relayers.drop_last(), confirmed, up_to) + rewarded_in(
            relayers.last(),
            confirmed,
            up_to,
        )
    }
}

/// Counts, for every unrewarded relayer, the messages that a confirmation
/// covers which raises the confirmed nonce from `confirmed` to `up_to`.
pub fn rewards_for_confirmation(
    relayers: &Vec<UnrewardedRelayer>,
    confirmed: MessageNonce,
    up_to: MessageNonce,
) -> (rewards: Vec<RelayerReward>)
    ensures
        rewards.len() == relayers.len(),
        forall|i: int|
            0 <= i < relayers.len() ==> (#[trigger] rewards[i]).relayer == relayers[i].relayer
                && rewards[i].messages == rewarded_in(relayers[i], confirmed as nat, up_to as nat),
{
    let mut rewards: Vec<RelayerReward> = Vec::new();
    let mut i: usize = 0;
    while i < relayers.len()
        invariant
            i <= relayers.len(),
            rewards.len() == i,
            forall|j: int|
                0 <= j < i ==> (#[trigger] rewards[j]).relayer == relayers[j].relayer
                    && rewards[j].messages == rewarded_in(
                    relayers[j],
                    confirmed as nat,
                    up_to as nat,
                ),
        decreases relayers.len() - i,
    {
        let entry = relayers[i];
        let messages: MessageNonce = if confirmed == MessageNonce::MAX {
            0
        } else {
            let first = if entry.begin > confirmed {
                entry.begin
            } else {
                confirmed + 1
            };
            let last = if entry.end < up_to {
                entry.end
            } else {
                up_to
            };
            if first <= last {
                last - first + 1
            } else {
                0
            }
        };
        rewards.push(RelayerReward { relayer: entry.relayer, messages });
        i += 1;
    }
    rewards
}

/// The rewards of the first `count` entries of an ordered list cover the
/// confirmed messages up to the end of the last of them.
proof fn lemma_rewards_of_prefix(
    relayers: Seq<UnrewardedRelayer>,
    received: nat,
    confirmed: nat,
    up_to: nat,
    count: int,
)
    requires
        entries_are_ordered(relayers, received),
        1 <= count <= relayers.len(),
        relayers[0].begin <= confirmed + 1,
        confirmed <= up_to,
    ensures
        total_rewarded(relayers.take(count), confirmed, up_to) == (if relayers[count - 1].end
            <= confirmed {
            0
        } else if relayers[count - 1].end < up_to {
            relayers[count - 1].end - confirmed
        } else {
            up_to - confirmed
        }),
    decreases count,
{
    assert(relayers.take(count).drop_last() =~= relayers.take(count - 1));
    if count == 1 {
        assert(total_rewarded(relayers.take(0), confirmed, up_to) == 0);
    } else {
        lemma_rewards_of_prefix(relayers, received, confirmed, up_to, count - 1);
    }
}

/// Where the entries of the unrewarded relayers reach back to the first
/// message that is not confirmed, a confirmation rewards every message it
/// covers once: the rewards add up to the number of confirmed messages.
pub proof fn lemma_rewards_cover_the_confirmation(
    relayers: Seq<UnrewardedRelayer>,
    received: nat,
    confirmed: nat,
    up_to: nat,
)
    requires
        entries_are_ordered(relayers, received),
        relayers.len() > 0,
        relayers[0].begin <= confirmed + 1,
        confirmed <= up_to <= received,
    ensures
        total_rewarded(relayers, confirmed, up_to) == up_to - confirmed,
{
    lemma_rewards_of_prefix(relayers, received, confirmed, up_to, relayers.len() as int);
    assert(relayers.take(relayers.len() as int) =~= relayers);
}

/// What bounds the deliveries that the target chain accepts on a lane.
#[derive(Clone, Copy, Debug, PartialEq, Eq, Structural)]
pub struct LaneBounds {
    /// Most entries of unrewarded relayers that the lane holds.
    pub max_unrewarded_relayer_entries: MessageNonce,
    /// Most messages that may be received without being confirmed.
    pub max_unconfirmed_messages: MessageNonce,
}

/// A lane as mathematical values.
pub struct LaneModel {
    pub lane: Seq<u8>,
    pub bounds: LaneBounds,
    pub generated: nat,
    pub confirmed: nat,
    pub received: nat,
    pub relayers: Seq<UnrewardedRelayer>,
}

/// A delivery as mathematical values: an inclusive range of nonces of a
/// lane, and the relayer that submits it.
pub struct Delivery {
    pub lane: Seq<u8>,
    pub begin: nat,
    pub end: nat,
    pub relayer: RelayerId,
}

/// Whether the entries are ranges of nonces that follow one another without
/// a gap and end at `received`.
pub open spec fn entries_are_ordered(relayers: Seq<UnrewardedRelayer>, received: nat) -> bool {
    &&& forall|i: int|
        0 <= i < relayers.len() ==> 1 <= (#[trigger] relayers[i]).begin <= relayers[i].end
    &&& forall|i: int|
        0 <= i < relayers.len() - 1 ==> (#[trigger] relayers[i]).end + 1 == relayers[i + 1].begin
    &&& relayers.len() > 0 ==> relayers.last().end == received
}

impl LaneModel {
    /// The entries of the relayers are ranges that follow one another
    /// without a gap and end at the latest received nonce.
    pub open spec fn relayers_are_ordered(self) -> bool {
        entries_are_ordered(self.relayers, self.received)
    }

    /// What holds of every lane: nothing is confirmed before it was
    /// received, nothing received before it was generated, and the entries of
    /// the relayers are ordered and within the bound of the lane.
    pub open spec fn wf(self) -> bool {
        &&& self.lane.len() == 4
        &&& self.confirmed <= self.received <= self.generated
        &&& self.generated <= MessageNonce::MAX
        &&& self.relayers.len() <= self.bounds.max_unrewarded_relayer_entries
        &&& self.relayers_are_ordered()
    }

    /// Whether the target chain takes new messages from `delivery`: it is
    /// for this lane, it reaches the first message that was not received and
    /// goes beyond it, all its messages were generated, and the bounds of the
    /// lane leave room for it.
    pub open spec fn accepts(self, delivery: Delivery) -> bool {
        &&& delivery.lane == self.lane
        &&& delivery.begin <= self.received + 1
        &&& self.received < delivery.end
        &&& delivery.end <= self.generated
        &&& self.relayers.len() < self.bounds.max_unrewarded_relayer_entries
        &&& delivery.end - self.confirmed <= self.bounds.max_unconfirmed_messages
    }

    /// The lane after `delivery` was submitted: where the target chain
    /// accepts it, the messages that were not received before are, and the
    /// relayer is entered for them; else nothing changes.
    pub open spec fn delivered(self, delivery: Delivery) -> LaneModel {
        if self.accepts(delivery) {
            LaneModel {
                received: delivery.end,
                relayers: self.relayers.push(
                    UnrewardedRelayer {
                        relayer: delivery.relayer,
                        begin: (self.received + 1) as MessageNonce,
                        end: delivery.end as MessageNonce,
                    },
                ),
                ..self
            }
        } else {
            self
        }
    }

    /// The lane after all of `deliveries` were submitted, the first one
    /// first.
    pub open spec fn delivered_all(self, deliveries: Seq<Delivery>) -> LaneModel
        decreases deliveries.len(),
    {
        if deliveries.len() == 0 {
            self
        } else {
            self.delivered(deliveries.first()).delivered_all(deliveries.drop_first())
        }
    }

    /// The lane after the source chain learnt that the messages up to
    /// `received` were received: they are confirmed, unless they were
    /// confirmed before or were never received.
    pub open spec fn confirmed_up_to(self, received: nat) -> LaneModel {
        if self.confirmed < received <= self.received {
            LaneModel { confirmed: received, ..self }
        } else {
            self
        }
    }

    /// The lane after the source chain generated the messages up to
    /// `generated`.
    pub open spec fn generated_up_to(self, generated: nat) -> LaneModel {
        if self.generated < generated <= MessageNonce::MAX {
            LaneModel { generated, ..self }
        } else {
            self
        }
    }
}

/// A delivery keeps a lane well-formed, never lowers the latest received
/// nonce and never raises it above the latest generated one; the confirmed
/// and generated nonces stay as they are.
pub proof fn lemma_delivery_keeps_order(lane: LaneModel, delivery: Delivery)
    requires
        lane.wf(),
    ensures
        lane.delivered(delivery).wf(),
        lane.received <= lane.delivered(delivery).received <= lane.generated,
        lane.delivered(delivery).generated == lane.generated,
        lane.delivered(delivery).confirmed == lane.confirmed,
{
}

/// Over any sequence of deliveries the latest received nonce never falls,
/// and it never exceeds the latest generated nonce.
pub proof fn lemma_deliveries_keep_order(lane: LaneModel, deliveries: Seq<Delivery>)
    requires
        lane.wf(),
    ensures
        lane.delivered_all(deliveries).wf(),
        lane.received <= lane.delivered_all(deliveries).received <= lane.generated,
        lane.delivered_all(deliveries).generated == lane.generated,
        lane.delivered_all(deliveries).confirmed == lane.confirmed,
    decreases deliveries.len(),
{
    if deliveries.len() > 0 {
        lemma_delivery_keeps_order(lane, deliveries.first());
        lemma_deliveries_keep_order(lane.delivered(deliveries.first()), deliveries.drop_first());
    }
}

/// A confirmation keeps a lane well-formed and never confirms more than was
/// received; the confirmed nonce never falls.
pub proof fn lemma_confirmation_keeps_order(lane: LaneModel, received: nat)
    requires
        lane.wf(),
    ensures
        lane.confirmed_up_to(received).wf(),
        lane.confirmed <= lane.confirmed_up_to(received).confirmed <= lane.received,
        lane.confirmed_up_to(received).received == lane.received,
{
}

/// Submitting the same delivery again changes nothing.
pub proof fn lemma_delivery_is_idempotent(lane: LaneModel, delivery: Delivery)
    ensures
        lane.delivered(delivery).delivered(delivery) == lane.delivered(delivery),
{
}

/// What happens to a lane: the source chain generates messages, a relayer
/// submits a delivery, or the source chain learns what was received.
pub enum LaneEvent {
    Generated(nat),
    Delivered(Delivery),
    Confirmed(nat),
}

impl LaneModel {
    /// The lane after `event`.
    pub open spec fn after(self, event: LaneEvent) -> LaneModel {
        match event {
            LaneEvent::Generated(generated) => self.generated_up_to(generated),
            LaneEvent::Delivered(delivery) => self.delivered(delivery),
            LaneEvent::Confirmed(received) => self.confirmed_up_to(received),
        }
    }

    /// The lane after all of `events`, the first one first.
    pub open spec fn after_all(self, events: Seq<LaneEvent>) -> LaneModel
        decreases events.len(),
    {
        if events.len() == 0 {
            self
        } else {
            self.after(events.first()).after_all(events.drop_first())
        }
    }
}

/// Whatever happens to a lane, in whatever order, it stays well-formed: the
/// confirmed nonce never exceeds the received one, nor the received one the
/// generated one, and none of the three ever falls.
pub proof fn lemma_events_keep_order(lane: LaneModel, events: Seq<LaneEvent>)
    requires
        lane.wf(),
    ensures
        lane.after_all(events).wf(),
        lane.after_all(events).confirmed <= lane.after_all(events).received
            <= lane.after_all(events).generated,
        lane.confirmed <= lane.after_all(events).confirmed,
        lane.received <= lane.after_all(events).received,
        lane.generated <= lane.after_all(events).generated,
    decreases events.len(),
{
    if events.len() > 0 {
        match events.first() {
            LaneEvent::Generated(generated) => {},
            LaneEvent::Delivered(delivery) => {
                lemma_delivery_keeps_order(lane, delivery);
            },
            LaneEvent::Confirmed(received) => {},
        }
        lemma_events_keep_order(lane.after(events.first()), events.drop_first());
    }
}

} // verus!
