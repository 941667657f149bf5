//! Primitives of the Pass3dt chain.

use crate::chain::{BlockLimits, ChainConstants, MessageNonce, Weight};
use crate::hashing::{blake2_256, blake2_256_digest, keccak_256, keccak_256_digest};
use vstd::prelude::*;

verus! {

/// Number of extra bytes (excluding size of storage value itself) of storage
/// proof, built at Pass3dt chain. This mostly depends on number of entries
/// (and their density) in the storage trie. Some reserve is reserved to
/// account future chain growth.
pub const EXTRA_STORAGE_PROOF_SIZE: u32 = 1024;

/// Number of bytes, included in the signed Pass3dt transaction apart from the
/// encoded call itself.
pub const TX_EXTRA_BYTES: u32 = 103;

/// Weight of one second of computation.
pub const WEIGHT_PER_SECOND: Weight = 1_000_000_000_000;

/// Maximum weight of single Pass3dt block: half a second of compute.
pub const MAXIMUM_BLOCK_WEIGHT: Weight = 500_000_000_000;

/// Maximal number of unrewarded relayer entries in Pass3dt confirmation
/// transaction.
pub const MAX_UNREWARDED_RELAYERS_IN_CONFIRMATION_TX: MessageNonce = 128;

/// Maximal number of unconfirmed messages in Pass3dt confirmation
/// transaction.
pub const MAX_UNCONFIRMED_MESSAGES_IN_CONFIRMATION_TX: MessageNonce = 128;

/// Weight of single regular message delivery transaction on Pass3dt chain.
pub const DEFAULT_MESSAGE_DELIVERY_TX_WEIGHT: Weight = 1_500_000_000;

/// Increase of delivery transaction weight on Pass3dt chain with every
/// additional message byte.
pub const ADDITIONAL_MESSAGE_BYTE_DELIVERY_WEIGHT: Weight = 25_000;

/// Maximal weight of single message delivery confirmation transaction on
/// Pass3dt chain.
pub const MAX_SINGLE_MESSAGE_DELIVERY_CONFIRMATION_TX_WEIGHT: Weight = 2_000_000_000;

/// Weight of pay-dispatch-fee operation for inbound messages at Pass3dt
/// chain. It is used to decrease the cost of a delivery transaction, so it
/// holds no reserve.
pub const PAY_INBOUND_DISPATCH_FEE_WEIGHT: Weight = 700_000_000;

/// Milliseconds between two blocks.
pub const MILLISECS_PER_BLOCK: u64 = 6000;

/// Duration of a slot in milliseconds.
pub const SLOT_DURATION: u64 = 6000;

/// Blocks per minute.
pub const MINUTES: BlockNumber = 10;

/// Blocks per hour.
pub const HOURS: BlockNumber = 600;

/// Blocks per day.
pub const DAYS: BlockNumber = 14_400;

/// The target length of a session (how often authorities change) on Pass3dt,
/// in blocks.
pub const SESSION_LENGTH: BlockNumber = 50;

/// Block number type used in Pass3dt.
pub type BlockNumber = u64;

/// Balance of an account.
pub type Balance = u64;

/// Index of a transaction in the chain.
pub type Index = u32;

/// Name of the With-Pass3dt GRANDPA pallet instance that is deployed at
/// bridged chains.
pub const WITH_PASS3DT_GRANDPA_PALLET_NAME: &'static str = "BridgePass3dtGrandpa";

/// Name of the With-Pass3dt messages pallet instance that is deployed at
/// bridged chains.
pub const WITH_PASS3DT_MESSAGES_PALLET_NAME: &'static str = "BridgePass3dtMessages";

/// Name of the transaction payment pallet at the Pass3dt runtime.
pub const TRANSACTION_PAYMENT_PALLET_NAME: &'static str = "TransactionPayment";

/// Name of the Pass3d->Pass3dt conversion rate stored in the Pass3dt runtime.
pub const PASS3D_TO_PASS3DT_CONVERSION_RATE_PARAMETER_NAME: &'static str =
    "Pass3dToPass3dtConversionRate";

/// The message-lane constants of Pass3dt as one descriptor.
pub open spec fn spec_constants() -> ChainConstants {
    ChainConstants {
        extra_storage_proof_size: 1024,
        tx_extra_bytes: 103,
        default_message_delivery_tx_weight: 1_500_000_000,
        additional_message_byte_delivery_weight: 25_000,
        max_single_message_delivery_confirmation_tx_weight: 2_000_000_000,
        pay_inbound_dispatch_fee_weight: 700_000_000,
        max_unrewarded_relayers_in_confirmation_tx: 128,
        max_unconfirmed_messages_in_confirmation_tx: 128,
    }
}

/// The message-lane constants of Pass3dt as one descriptor.
pub fn constants() -> (c: ChainConstants)
    ensures
        c == spec_constants(),
{
    ChainConstants {
        extra_storage_proof_size: EXTRA_STORAGE_PROOF_SIZE,
        tx_extra_bytes: TX_EXTRA_BYTES,
        default_message_delivery_tx_weight: DEFAULT_MESSAGE_DELIVERY_TX_WEIGHT,
        additional_message_byte_delivery_weight: ADDITIONAL_MESSAGE_BYTE_DELIVERY_WEIGHT,
        max_single_message_delivery_confirmation_tx_weight:
            MAX_SINGLE_MESSAGE_DELIVERY_CONFIRMATION_TX_WEIGHT,
        pay_inbound_dispatch_fee_weight: PAY_INBOUND_DISPATCH_FEE_WEIGHT,
        max_unrewarded_relayers_in_confirmation_tx: MAX_UNREWARDED_RELAYERS_IN_CONFIRMATION_TX,
        max_unconfirmed_messages_in_confirmation_tx: MAX_UNCONFIRMED_MESSAGES_IN_CONFIRMATION_TX,
    }
}

/// Pass3dt chain.
#[derive(Clone, Copy, Debug)]
pub struct Pass3dt;

impl Pass3dt {
    /// Largest size of one transaction of the normal class, as the block
    /// length of the chain gives it.
    pub fn max_extrinsic_size(limits: &BlockLimits) -> (r: u32)
        ensures
            r == limits.max_extrinsic_size,
    {
        limits.max_extrinsic_size
    }

    /// Largest weight of one transaction of the normal class; unlimited
    /// where the block weights set no limit.
    pub fn max_extrinsic_weight(max_extrinsic: Option<Weight>) -> (r: Weight)
        ensures
            r == (match max_extrinsic {
                Some(w) => w,
                None => Weight::MAX,
            }),
    {
        match max_extrinsic {
            Some(w) => w,
            None => Weight::MAX,
        }
    }
}

/// Hash of the Pass3dt chain: 64 bytes.
#[derive(Clone, Copy, Debug)]
pub struct Pass3dtHash {
    pub bytes: [u8; 64],
}

/// What the Pass3dt hasher gives for `data`: the Blake2 digest, then the
/// Keccak digest.
pub open spec fn pass3dt_hash_of(data: Seq<u8>) -> Seq<u8> {
    blake2_256_digest(data) + keccak_256_digest(data)
}

/// Pass3dt hasher (Blake2-256 ++ Keccak-256).
#[derive(Clone, Copy, Debug, PartialEq, Eq)]
pub struct BlakeTwoAndKeccak256;

impl BlakeTwoAndKeccak256 {
    /// Length of the hash in bytes.
    pub const LENGTH: usize = 64;

    /// Hashes `s` with both functions and joins the digests.
    pub fn hash(s: &[u8]) -> (out: Pass3dtHash)
        ensures
            out.bytes@ == pass3dt_hash_of(s@),
    {
        let first = blake2_256(s);
        let second = keccak_256(s);
        let mut bytes = [0u8; 64];
        let mut i: usize = 0;
        while i < 32
            invariant
                i <= 32,
                forall|j: int| 0 <= j < i ==> bytes@[j] == first@[j],
                forall|j: int| 0 <= j < i ==> bytes@[32 + j] == second@[j],
            decreases 32 - i,
        {
            bytes[i] = first[i];
            bytes[i + 32] = second[i];
            i += 1;
        }
        Pass3dtHash { bytes }
    }
}

} // verus!
