//! Types used to connect to the Pass3d chain: its transactions, and how they
//! are signed and read back.

use crate::chain::{BlockLimits, Weight};
use crate::hashing::{
    blake2_128, blake2_128_digest, blake2_256, blake2_256_digest, twox_128, twox_128_digest,
};
use crate::scale::{
    append_bytes, compact_u128_encoding, compact_u32_encoding, encode_compact_u128,
    encode_compact_u32, encode_era, encode_u32, era_encoding, era_is_valid, mortal_era,
    mortal_era_of, u32_le_bytes, Era,
};
use sp_core::Pair;
use vstd::prelude::*;

verus! {

/// Block number type used in Pass3d.
pub type BlockNumber = u32;

/// Hash type used in Pass3d.
pub type Hash = [u8; 32];

/// Index of a transaction in the chain.
pub type Index = u32;

/// Balance of an account.
pub type Balance = u128;

/// Identifies an account: the public key of its owner.
pub type AccountId = [u8; 32];

/// Pass3d header id.
#[derive(Clone, Copy, Debug, PartialEq, Eq)]
pub struct HeaderId {
    pub number: BlockNumber,
    pub hash: Hash,
}

/// The public key of the sr25519 key pair that is made from `seed`.
pub uninterp spec fn sr25519_public_key(seed: Seq<u8>) -> Seq<u8>;

/// Makes the `sp_core::sr25519::Pair` of the seed with `Pair::from_seed` and
/// calls `Pair::public` on it. The contract names the key, which depends on
/// the seed alone.
#[verifier::external_body]
pub(crate) fn sr25519_public(seed: &[u8; 32]) -> (public: [u8; 32])
    ensures
        public@ == sr25519_public_key(seed@),
{
    sp_core::sr25519::Pair::from_seed(seed).public().to_raw()
}

/// Makes the `sp_core::sr25519::Pair` of the seed with `Pair::from_seed` and
/// calls `Pair::sign` on it. The signature depends on fresh randomness, so
/// the contract claims nothing of it.
#[verifier::external_body]
pub(crate) fn sr25519_sign(seed: &[u8; 32], message: &[u8]) -> (signature: [u8; 64]) {
    sp_core::sr25519::Pair::from_seed(seed).sign(message).to_raw()
}

/// The key pair of an account, held as the seed it is made from.
#[derive(Clone, Copy)]
pub struct AccountKeyPair {
    seed: [u8; 32],
}

impl AccountKeyPair {
    /// The seed of the pair.
    pub closed spec fn seed(&self) -> Seq<u8> {
        self.seed@
    }

    /// The account of the pair: its public key.
    pub open spec fn account(&self) -> Seq<u8> {
        sr25519_public_key(self.seed())
    }

    /// The key pair of `seed`.
    pub fn from_seed(seed: [u8; 32]) -> (pair: AccountKeyPair)
        ensures
            pair.seed() == seed@,
    {
        AccountKeyPair { seed }
    }

    /// The public key of the pair.
    pub fn public(&self) -> (public: AccountId)
        ensures
            public@ == self.account(),
    {
        sr25519_public(&self.seed)
    }
}

/// How long a transaction stays valid.
#[derive(Clone, Copy, Debug, PartialEq, Eq)]
pub enum TransactionEra {
    /// The transaction is valid forever.
    Immortal,
    /// The transaction is valid for `period` blocks from `best_block` on.
    Mortal { best_block: HeaderId, period: u32 },
}

impl TransactionEra {
    /// The era of the chain that stands for this one.
    pub open spec fn spec_frame_era(self) -> Era {
        match self {
            TransactionEra::Immortal => Era::Immortal,
            TransactionEra::Mortal { best_block, period } => {
                let (period, phase) = mortal_era_of(period as u64, best_block.number as u64);
                Era::Mortal { period, phase }
            },
        }
    }

    /// The hash that the signature of a transaction of this era covers: the
    /// genesis hash for an immortal one, the hash of the best block else.
    pub open spec fn spec_signed_payload(self, genesis_hash: Hash) -> Hash {
        match self {
            TransactionEra::Immortal => genesis_hash,
            TransactionEra::Mortal { best_block, period } => best_block.hash,
        }
    }

    /// The era of the chain that stands for this one.
    pub fn frame_era(&self) -> (era: Era)
        ensures
            era == self.spec_frame_era(),
            era_is_valid(era),
    {
        match self {
            TransactionEra::Immortal => Era::Immortal,
            TransactionEra::Mortal { best_block, period } => mortal_era(
                *period as u64,
                best_block.number as u64,
            ),
        }
    }

    /// The hash that the signature of a transaction of this era covers.
    pub fn signed_payload(&self, genesis_hash: Hash) -> (hash: Hash)
        ensures
            hash == self.spec_signed_payload(genesis_hash),
    {
        match self {
            TransactionEra::Immortal => genesis_hash,
            TransactionEra::Mortal { best_block, period } => best_block.hash,
        }
    }
}

/// A transaction before it is signed.
#[derive(Clone, Debug, PartialEq, Eq)]
pub struct UnsignedTransaction {
    /// The encoded call.
    pub call: Vec<u8>,
    /// Number of transactions that the account has sent before.
    pub nonce: Index,
    /// What the sender pays on top of the fee.
    pub tip: Balance,
    /// How long the transaction stays valid.
    pub era: TransactionEra,
}

impl UnsignedTransaction {
    /// The transaction as mathematical values: call, nonce, tip and era.
    pub open spec fn view(&self) -> (Seq<u8>, Index, Balance, TransactionEra) {
        (self.call@, self.nonce, self.tip, self.era)
    }

    /// An immortal transaction of `call` without a tip.
    pub fn new(call: Vec<u8>, nonce: Index) -> (transaction: UnsignedTransaction)
        ensures
            transaction@ == (call@, nonce, 0u128, TransactionEra::Immortal),
    {
        UnsignedTransaction { call, nonce, tip: 0, era: TransactionEra::Immortal }
    }

    /// The transaction with `tip`.
    pub fn tip(self, tip: Balance) -> (transaction: UnsignedTransaction)
        ensures
            transaction@ == (self.call@, self.nonce, tip, self.era),
    {
        UnsignedTransaction { call: self.call, nonce: self.nonce, tip, era: self.era }
    }

    /// The transaction with `era`.
    pub fn era(self, era: TransactionEra) -> (transaction: UnsignedTransaction)
        ensures
            transaction@ == (self.call@, self.nonce, self.tip, era),
    {
        UnsignedTransaction { call: self.call, nonce: self.nonce, tip: self.tip, era }
    }
}

/// What a transaction is signed with.
#[derive(Clone, Copy)]
pub struct SignParam {
    /// Version of the runtime specification.
    pub spec_version: u32,
    /// Version of the transaction format.
    pub transaction_version: u32,
    /// Hash of the genesis block of the chain.
    pub genesis_hash: Hash,
    /// Key pair of the sender.
    pub signer: AccountKeyPair,
}

/// Who sent a transaction.
#[derive(Clone, Debug, PartialEq, Eq)]
pub enum Address {
    /// The account itself.
    Id(AccountId),
    /// An index that the chain maps to an account.
    Index(u32),
    /// Bytes of any length.
    Raw(Vec<u8>),
    /// A 32-byte representation.
    Address32([u8; 32]),
    /// A 20-byte representation.
    Address20([u8; 20]),
}

/// The signature of a transaction, by its scheme.
#[derive(Clone, Copy, Debug, PartialEq, Eq)]
pub enum Signature {
    Ed25519([u8; 64]),
    Sr25519([u8; 64]),
    Ecdsa([u8; 65]),
}

/// What a signed transaction carries besides call and signature.
#[derive(Clone, Copy, Debug, PartialEq, Eq, Structural)]
pub struct SignedExtra {
    /// How long the transaction stays valid.
    pub era: Era,
    /// Number of transactions that the account has sent before.
    pub nonce: Index,
    /// What the sender pays on top of the fee.
    pub tip: Balance,
}

/// A transaction as it is sent to the chain.
#[derive(Clone, Debug, PartialEq, Eq)]
pub struct SignedTransaction {
    /// The encoded call.
    pub function: Vec<u8>,
    /// Sender, signature and extra data; `None` for an unsigned transaction.
    pub signature: Option<(Address, Signature, SignedExtra)>,
}

/// Largest payload that is signed as it is; a longer one is hashed first.
pub const MAX_RAW_SIGNED_PAYLOAD: usize = 256;

/// The bytes that a signature covers before they are hashed: the call, the
/// extra data of the transaction, and what both sides know without sending
/// it.
pub open spec fn raw_signed_payload(
    call: Seq<u8>,
    extra: SignedExtra,
    spec_version: u32,
    transaction_version: u32,
    genesis_hash: Seq<u8>,
    era_hash: Seq<u8>,
) -> Seq<u8> {
    call + era_encoding(extra.era) + compact_u32_encoding(extra.nonce) + compact_u128_encoding(
        extra.tip,
    ) + u32_le_bytes(spec_version) + u32_le_bytes(transaction_version) + genesis_hash + era_hash
}

/// The bytes that are signed: the payload, or its Blake2 digest where it is
/// longer than 256 bytes.
pub open spec fn signed_message(payload: Seq<u8>) -> Seq<u8> {
    if payload.len() > MAX_RAW_SIGNED_PAYLOAD {
        blake2_256_digest(payload)
    } else {
        payload
    }
}

/// The extra data of the signed form of `unsigned`.
pub open spec fn signed_extra_of(unsigned: UnsignedTransaction) -> SignedExtra {
    SignedExtra { era: unsigned.era.spec_frame_era(), nonce: unsigned.nonce, tip: unsigned.tip }
}

/// The bytes that signing `unsigned` with `param` puts a signature on.
pub open spec fn message_to_sign(param: SignParam, unsigned: UnsignedTransaction) -> Seq<u8> {
    signed_message(
        raw_signed_payload(
            unsigned.call@,
            signed_extra_of(unsigned),
            param.spec_version,
            param.transaction_version,
            param.genesis_hash@,
            unsigned.era.spec_signed_payload(param.genesis_hash)@,
        ),
    )
}

/// What reading a signed transaction back gives: nothing for an unsigned
/// one, else call, nonce and tip of an immortal transaction.
pub open spec fn parsed(tx: SignedTransaction) -> Option<
    (Seq<u8>, Index, Balance, TransactionEra),
> {
    match tx.signature {
        None => None,
        Some((address, signature, extra)) => Some(
            (tx.function@, extra.nonce, extra.tip, TransactionEra::Immortal),
        ),
    }
}

/// Whether `tx` was sent by `account`.
pub open spec fn signed_by(account: Seq<u8>, tx: SignedTransaction) -> bool {
    match tx.signature {
        Some((Address::Id(id), signature, extra)) => id@ == account,
        _ => false,
    }
}

/// The prefix of the storage of the system pallet: the bytes of `System`.
pub open spec fn system_pallet_prefix() -> Seq<u8> {
    seq![83u8, 121u8, 115u8, 116u8, 101u8, 109u8]
}

/// The prefix of the map of accounts: the bytes of `Account`.
pub open spec fn account_map_prefix() -> Seq<u8> {
    seq![65u8, 99u8, 99u8, 111u8, 117u8, 110u8, 116u8]
}

/// The key under which the chain stores what it knows of `account_id`: the
/// hashed prefixes of pallet and map, then the hashed account, then the
/// account itself.
pub open spec fn account_storage_key(account_id: Seq<u8>) -> Seq<u8> {
    twox_128_digest(system_pallet_prefix()) + twox_128_digest(account_map_prefix())
        + blake2_128_digest(account_id) + account_id
}

/// Key of a value in the storage of the chain.
#[derive(Clone, Debug, PartialEq, Eq)]
pub struct StorageKey(pub Vec<u8>);

/// Assembles the signed form of `unsigned` from the account of the sender
/// and the signature over the message.
pub fn signed_transaction_from(
    unsigned: UnsignedTransaction,
    account: AccountId,
    signature: [u8; 64],
    era: Era,
) -> (tx: SignedTransaction)
    ensures
        tx.function@ == unsigned.call@,
        tx.signature == Some(
            (
                Address::Id(account),
                Signature::Sr25519(signature),
                SignedExtra { era, nonce: unsigned.nonce, tip: unsigned.tip },
            ),
        ),
{
    let extra = SignedExtra { era, nonce: unsigned.nonce, tip: unsigned.tip };
    SignedTransaction {
        function: unsigned.call,
        signature: Some((Address::Id(account), Signature::Sr25519(signature), extra)),
    }
}

/// Frames the bytes that the signature of a transaction covers.
pub fn signing_message(param: &SignParam, unsigned: &UnsignedTransaction) -> (message: Vec<u8>)
    ensures
        message@ == message_to_sign(*param, *unsigned),
{
    let era = unsigned.era.frame_era();
    let era_hash = unsigned.era.signed_payload(param.genesis_hash);
    let mut payload: Vec<u8> = Vec::new();
    append_bytes(&mut payload, unsigned.call.as_slice());
    let era_bytes = encode_era(&era);
    append_bytes(&mut payload, era_bytes.as_slice());
    let nonce_bytes = encode_compact_u32(unsigned.nonce);
    append_bytes(&mut payload, nonce_bytes.as_slice());
    let tip_bytes = encode_compact_u128(unsigned.tip);
    append_bytes(&mut payload, tip_bytes.as_slice());
    let spec_version_bytes = encode_u32(param.spec_version);
    append_bytes(&mut payload, spec_version_bytes.as_slice());
    let transaction_version_bytes = encode_u32(param.transaction_version);
    append_bytes(&mut payload, transaction_version_bytes.as_slice());
    append_bytes(&mut payload, param.genesis_hash.as_slice());
    append_bytes(&mut payload, era_hash.as_slice());
    if payload.len() > MAX_RAW_SIGNED_PAYLOAD {
        let digest = blake2_256(payload.as_slice());
        let mut message: Vec<u8> = Vec::new();
        append_bytes(&mut message, digest.as_slice());
        message
    } else {
        payload
    }
}

/// Pass3d chain definition
#[derive(Debug, Clone, Copy, PartialEq, Eq)]
pub struct Pass3d;

impl Pass3d {
    /// Name of the chain.
    pub const NAME: &'static str = "Pass3d";

    /// Pass3d token has no value, but we associate it with DOT token.
    pub const TOKEN_ID: &'static str = "polkadot";

    /// Seconds between two blocks, on average.
    pub const AVERAGE_BLOCK_INTERVAL_SECONDS: u64 = 5;

    /// Largest size of one transaction.
    pub fn max_extrinsic_size(limits: &BlockLimits) -> (size: u32)
        ensures
            size == limits.max_extrinsic_size,
    {
        limits.max_extrinsic_size
    }

    /// Largest weight of one transaction.
    pub fn max_extrinsic_weight(limits: &BlockLimits) -> (weight: Weight)
        ensures
            weight == limits.max_extrinsic_weight,
    {
        limits.max_extrinsic_weight
    }

    /// The key under which the chain stores the balance and the nonce of
    /// `account_id`.
    pub fn account_info_storage_key(account_id: &AccountId) -> (key: StorageKey)
        ensures
            key.0@ == account_storage_key(account_id@),
    {
        let pallet: [u8; 6] = [83, 121, 115, 116, 101, 109];
        let map: [u8; 7] = [65, 99, 99, 111, 117, 110, 116];
        let pallet_hash = twox_128(pallet.as_slice());
        let map_hash = twox_128(map.as_slice());
        let account_hash = blake2_128(account_id.as_slice());
        let mut key: Vec<u8> = Vec::new();
        append_bytes(&mut key, pallet_hash.as_slice());
        append_bytes(&mut key, map_hash.as_slice());
        append_bytes(&mut key, account_hash.as_slice());
        append_bytes(&mut key, account_id.as_slice());
        StorageKey(key)
    }

    /// Signs `unsigned` with the key pair of `param`: the signature covers
    /// call, era, nonce and tip, the versions of the runtime and the hashes
    /// of the genesis block and of the block the era starts at. The signed
    /// transaction names the account of the signer as its sender and reads
    /// back as the call, nonce and tip of `unsigned`.
    pub fn sign_transaction(param: SignParam, unsigned: UnsignedTransaction) -> (tx:
        SignedTransaction)
        ensures
            tx.function@ == unsigned.call@,
            tx.signature matches Some((address, signature, extra)) && (address matches Address::Id(
                id,
            ) && id@ == param.signer.account()) && signature is Sr25519 && extra
                == signed_extra_of(unsigned),
            signed_by(param.signer.account(), tx),
            parsed(tx) == Some(
                (unsigned.call@, unsigned.nonce, unsigned.tip, TransactionEra::Immortal),
            ),
    {
        let message = signing_message(&param, &unsigned);
        let signature = sr25519_sign(&param.signer.seed, message.as_slice());
        let account = param.signer.public();
        let era = unsigned.era.frame_era();
        signed_transaction_from(unsigned, account, signature, era)
    }

    /// Whether `tx` carries a signature.
    pub fn is_signed(tx: &SignedTransaction) -> (signed: bool)
        ensures
            signed == tx.signature is Some,
    {
        tx.signature.is_some()
    }

    /// Whether `tx` was sent by the account of `signer`.
    pub fn is_signed_by(signer: &AccountKeyPair, tx: &SignedTransaction) -> (by_signer: bool)
        ensures
            by_signer == signed_by(signer.account(), *tx),
    {
        let public = signer.public();
        match &tx.signature {
            Some((Address::Id(id), _, _)) => {
                let mut same = true;
                let mut i: usize = 0;
                while i < 32
                    invariant
                        i <= 32,
                        same == (forall|j: int| 0 <= j < i ==> id@[j] == public@[j]),
                    decreases 32 - i,
                {
                    if id[i] != public[i] {
                        same = false;
                    }
                    i += 1;
                }
                assert(same == (id@ =~= public@));
                same
            },
            _ => false,
        }
    }

    /// Reads call, nonce and tip back from a signed transaction; an unsigned
    /// one gives `None`. The era is not read back: the result is immortal.
    pub fn parse_transaction(tx: SignedTransaction) -> (unsigned: Option<UnsignedTransaction>)
        ensures
            unsigned is None <==> tx.signature is None,
            match unsigned {
                Some(u) => parsed(tx) == Some(u@),
                None => parsed(tx) is None,
            },
    {
        match tx.signature {
            None => None,
            Some((_, _, extra)) => Some(
                UnsignedTransaction::new(tx.function, extra.nonce).tip(extra.tip),
            ),
        }
    }
}

} // verus!
