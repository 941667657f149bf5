//! Chain capability descriptors: the identifiers and constants of each chain
//! that parameterise the fee model and the synchronisation engines.

use vstd::prelude::*;

verus! {

/// Identifier of a message lane between two chains.
pub type LaneId = [u8; 4];

/// Position of a message within its lane.
pub type MessageNonce = u64;

/// Computation a transaction needs.
pub type Weight = u64;

/// The constants of a chain that message delivery to it, and confirmation
/// on it, are priced and bounded by.
#[derive(Clone, Copy, Debug, PartialEq, Eq, Structural)]
pub struct ChainConstants {
    /// Bytes of a storage proof built at the chain, besides the proved value.
    pub extra_storage_proof_size: u32,
    /// Bytes of a signed transaction of the chain besides the encoded call.
    pub tx_extra_bytes: u32,
    /// Weight of the delivery of one message of the expected default length
    /// and no dispatch weight.
    pub default_message_delivery_tx_weight: Weight,
    /// Delivery weight that every further byte of a message adds.
    pub additional_message_byte_delivery_weight: Weight,
    /// Largest weight of the confirmation of one delivered message.
    pub max_single_message_delivery_confirmation_tx_weight: Weight,
    /// Weight of paying the dispatch fee of an inbound message at the chain.
    pub pay_inbound_dispatch_fee_weight: Weight,
    /// Most unrewarded relayer entries that one confirmation may hold.
    pub max_unrewarded_relayers_in_confirmation_tx: MessageNonce,
    /// Most unconfirmed messages that one confirmation may cover.
    pub max_unconfirmed_messages_in_confirmation_tx: MessageNonce,
}

/// The limits that the block length and block weights of a chain put on one
/// transaction of the normal class.
#[derive(Clone, Copy, Debug, PartialEq, Eq, Structural)]
pub struct BlockLimits {
    /// Weight that every transaction costs before its call runs.
    pub base_extrinsic_weight: Weight,
    /// Largest size of one transaction, in bytes.
    pub max_extrinsic_size: u32,
    /// Largest weight of one transaction.
    pub max_extrinsic_weight: Weight,
}

/// Length in bytes that the delivery weight of a message is calibrated for.
pub const EXPECTED_DEFAULT_MESSAGE_LENGTH: u32 = 128;

/// Identifies a header of a chain: ordered by number, with the hash telling
/// apart headers of different forks.
#[derive(Clone, Debug, PartialEq, Eq)]
pub struct HeaderId {
    pub number: u64,
    pub hash: Vec<u8>,
}

impl HeaderId {
    /// The header's number and hash as mathematical values.
    pub open spec fn view(&self) -> (int, Seq<u8>) {
        (self.number as int, self.hash@)
    }

    /// A copy of the identifier.
    pub fn duplicate(&self) -> (r: HeaderId)
        ensures
            r@ == self@,
    {
        let mut hash: Vec<u8> = Vec::new();
        let mut i: usize = 0;
        while i < self.hash.len()
            invariant
                i <= self.hash.len(),
                hash@ == self.hash@.take(i as int),
            decreases self.hash.len() - i,
        {
            hash.push(self.hash[i]);
            i += 1;
        }
        HeaderId { number: self.number, hash }
    }

    /// Whether the two identify the same header.
    pub fn same_as(&self, other: &HeaderId) -> (same: bool)
        ensures
            same == (self@ == other@),
    {
        if self.number != other.number || self.hash.len() != other.hash.len() {
            return false;
        }
        let mut i: usize = 0;
        while i < self.hash.len()
            invariant
                i <= self.hash.len(),
                self.hash.len() == other.hash.len(),
                forall|j: int| 0 <= j < i ==> self.hash@[j] == other.hash@[j],
            decreases self.hash.len() - i,
        {
            if self.hash[i] != other.hash[i] {
                return false;
            }
            i += 1;
        }
        assert(self.hash@ =~= other.hash@);
        true
    }
}

} // verus!
