//! The fee and conversion model: what the delivery of a message costs in
//! weight and bytes, what a transaction of that cost is charged, and how a
//! balance of one chain is expressed in the other's.

use crate::chain::{ChainConstants, Weight, EXPECTED_DEFAULT_MESSAGE_LENGTH};
use crate::fixed::{
    fixed_of_rational, fixed_saturating_from_rational, fixed_saturating_mul,
    fixed_saturating_mul_int, fixed_times_fixed, fixed_times_int, saturate_u128, FixedU128,
};
use vstd::prelude::*;

verus! {

/// Weight and size of a transaction that delivers messages.
#[derive(Clone, Copy, Debug, PartialEq, Eq, Structural)]
pub struct MessageTransaction {
    /// Weight of the transaction's call.
    pub dispatch_weight: Weight,
    /// Size of the encoded transaction in bytes.
    pub size: u32,
}

/// `x` brought into the range of `u64`.
pub open spec fn saturate_u64(x: int) -> int {
    if x < 0 {
        0
    } else if x > u64::MAX as int {
        u64::MAX as int
    } else {
        x
    }
}

/// `x` brought into the range of `u32`.
pub open spec fn saturate_u32(x: int) -> int {
    if x < 0 {
        0
    } else if x > u32::MAX as int {
        u32::MAX as int
    } else {
        x
    }
}

/// The weight of paying the dispatch fee that leaves the estimate when the
/// delivery does not pay it.
pub open spec fn dispatch_fee_discount(bridged: ChainConstants, include_pay_dispatch_fee_cost: bool) -> int {
    if include_pay_dispatch_fee_cost {
        0
    } else {
        bridged.pay_inbound_dispatch_fee_weight as int
    }
}

/// Weight of the delivery of one message of `payload_len` bytes to the
/// bridged chain: the per-byte weight of what exceeds the expected default
/// length, plus the default delivery weight, less the discount, plus the
/// dispatch weight of the message, saturating at every step.
pub open spec fn delivery_weight(
    bridged: ChainConstants,
    payload_len: int,
    include_pay_dispatch_fee_cost: bool,
    message_dispatch_weight: int,
) -> int {
    let extra_bytes = saturate_u64(payload_len - EXPECTED_DEFAULT_MESSAGE_LENGTH as int);
    let bytes_weight = saturate_u64(
        extra_bytes * bridged.additional_message_byte_delivery_weight as int,
    );
    let with_base = saturate_u64(bytes_weight + bridged.default_message_delivery_tx_weight as int);
    let discounted = saturate_u64(
        with_base - dispatch_fee_discount(bridged, include_pay_dispatch_fee_cost),
    );
    saturate_u64(discounted + message_dispatch_weight)
}

/// Size of the delivery of one message of `payload_len` bytes: the payload,
/// the overhead of a storage proof built at the sending chain, and the bytes
/// that a transaction of the bridged chain holds besides its call,
/// saturating at every step.
pub open spec fn delivery_size(
    payload_len: int,
    storage_proof_overhead: int,
    tx_extra_bytes: int,
) -> int {
    saturate_u32(saturate_u32(payload_len + storage_proof_overhead) + tx_extra_bytes)
}

/// The product of `a` and `b`, or `u64::MAX` where it does not fit.
pub fn saturating_mul_u64(a: u64, b: u64) -> (r: u64)
    ensures
        r as int == saturate_u64(a as int * b as int),
{
    match a.checked_mul(b) {
        Some(v) => v,
        None => u64::MAX,
    }
}

/// The product of `a` and `b`, or `u128::MAX` where it does not fit.
pub fn saturating_mul_u128(a: u128, b: u128) -> (r: u128)
    ensures
        r as int == saturate_u128(a as int * b as int),
{
    match a.checked_mul(b) {
        Some(v) => v,
        None => u128::MAX,
    }
}

/// Estimates the transaction that delivers one message with the given
/// payload from this chain to the bridged chain.
///
/// `bridged` holds the constants of the chain that receives the message,
/// `storage_proof_overhead` the extra bytes of a storage proof built at the
/// chain that sends it. The estimate is the marginal cost over a message of
/// the expected default length; no step of it overflows or underflows.
pub fn estimate_delivery_transaction(
    bridged: &ChainConstants,
    storage_proof_overhead: u32,
    message_payload: &[u8],
    include_pay_dispatch_fee_cost: bool,
    message_dispatch_weight: Weight,
) -> (transaction: MessageTransaction)
    ensures
        transaction.dispatch_weight as int == delivery_weight(
            *bridged,
            saturate_u32(message_payload@.len() as int),
            include_pay_dispatch_fee_cost,
            message_dispatch_weight as int,
        ),
        transaction.size as int == delivery_size(
            saturate_u32(message_payload@.len() as int),
            storage_proof_overhead as int,
            bridged.tx_extra_bytes as int,
        ),
{
    let len: usize = message_payload.len();
    let message_payload_len: u32 = if len > u32::MAX as usize {
        u32::MAX
    } else {
        len as u32
    };
    estimate_delivery_of_length(
        bridged,
        storage_proof_overhead,
        message_payload_len,
        include_pay_dispatch_fee_cost,
        message_dispatch_weight,
    )
}

/// Estimates the transaction that delivers `message_payload_len` bytes of
/// payload with `message_dispatch_weight` from this chain to the bridged
/// chain.
pub fn estimate_delivery_of_length(
    bridged: &ChainConstants,
    storage_proof_overhead: u32,
    message_payload_len: u32,
    include_pay_dispatch_fee_cost: bool,
    message_dispatch_weight: Weight,
) -> (transaction: MessageTransaction)
    ensures
        transaction.dispatch_weight as int == delivery_weight(
            *bridged,
            message_payload_len as int,
            include_pay_dispatch_fee_cost,
            message_dispatch_weight as int,
        ),
        transaction.size as int == delivery_size(
            message_payload_len as int,
            storage_proof_overhead as int,
            bridged.tx_extra_bytes as int,
        ),
{
    let extra_bytes_in_payload: Weight = (message_payload_len as Weight).saturating_sub(
        EXPECTED_DEFAULT_MESSAGE_LENGTH as Weight,
    );
    let discount: Weight = if include_pay_dispatch_fee_cost {
        0
    } else {
        bridged.pay_inbound_dispatch_fee_weight
    };
    MessageTransaction {
        dispatch_weight: saturating_mul_u64(
            extra_bytes_in_payload,
            bridged.additional_message_byte_delivery_weight,
        ).saturating_add(bridged.default_message_delivery_tx_weight).saturating_sub(
            discount,
        ).saturating_add(message_dispatch_weight),
        size: message_payload_len.saturating_add(storage_proof_overhead).saturating_add(
            bridged.tx_extra_bytes,
        ),
    }
}

/// An empty message without dispatch weight is estimated at no less than
/// the default delivery weight. This leaves out the estimates that take the
/// discount for the dispatch fee off a default weight above zero.
pub proof fn lemma_empty_message_weight_covers_base(
    bridged: ChainConstants,
    include_pay_dispatch_fee_cost: bool,
)
    requires
        include_pay_dispatch_fee_cost || bridged.pay_inbound_dispatch_fee_weight == 0
            || bridged.default_message_delivery_tx_weight == 0,
    ensures
        delivery_weight(bridged, 0, include_pay_dispatch_fee_cost, 0)
            >= bridged.default_message_delivery_tx_weight,
{
}

/// An empty message is estimated at no fewer bytes than the storage proof
/// and the transaction add to every message, where a `u32` holds their sum.
pub proof fn lemma_empty_message_size_covers_overhead(
    storage_proof_overhead: u32,
    tx_extra_bytes: u32,
)
    requires
        storage_proof_overhead + tx_extra_bytes <= u32::MAX,
    ensures
        delivery_size(0, storage_proof_overhead as int, tx_extra_bytes as int)
            == storage_proof_overhead + tx_extra_bytes,
{
}

/// No message is estimated below the default delivery weight less the
/// discount, nor at fewer bytes than its payload, as far as a `u32` holds
/// them: the marginal cost of a message is never negative.
pub proof fn lemma_marginal_cost_is_not_negative(
    bridged: ChainConstants,
    payload_len: int,
    storage_proof_overhead: u32,
    include_pay_dispatch_fee_cost: bool,
    message_dispatch_weight: int,
)
    requires
        0 <= payload_len,
        0 <= message_dispatch_weight,
    ensures
        delivery_weight(bridged, payload_len, include_pay_dispatch_fee_cost, message_dispatch_weight)
            >= bridged.default_message_delivery_tx_weight - dispatch_fee_discount(
            bridged,
            include_pay_dispatch_fee_cost,
        ),
        delivery_size(payload_len, storage_proof_overhead as int, bridged.tx_extra_bytes as int)
            >= saturate_u32(payload_len),
{
    let extra_bytes = saturate_u64(payload_len - EXPECTED_DEFAULT_MESSAGE_LENGTH as int);
}

/// The fee of a transaction from its parts: the base fee, the fee of its
/// bytes, and the fee of its weight adjusted by the multiplier, each sum and
/// product saturating.
pub open spec fn payment_of(
    base_fee: u128,
    per_byte_fee: u128,
    multiplier: FixedU128,
    unadjusted_weight_fee: u128,
    size: u32,
) -> int {
    let len_fee = saturate_u128(per_byte_fee as int * size as int);
    let adjusted_weight_fee = saturate_u128(fixed_times_int(multiplier, unadjusted_weight_fee as int));
    saturate_u128(saturate_u128(base_fee as int + len_fee) + adjusted_weight_fee)
}

/// Sums the fee of a transaction of `size` bytes whose base and weight were
/// already converted into fees.
pub fn payment_from_fees(
    base_fee: u128,
    per_byte_fee: u128,
    multiplier: FixedU128,
    unadjusted_weight_fee: u128,
    size: u32,
) -> (fee: u128)
    ensures
        fee as int == payment_of(base_fee, per_byte_fee, multiplier, unadjusted_weight_fee, size),
{
    // non-adjustable per-byte fee
    let len_fee = saturating_mul_u128(per_byte_fee, size as u128);
    // the adjustable part of the fee
    let adjusted_weight_fee = fixed_saturating_mul_int(multiplier, unadjusted_weight_fee);
    base_fee.saturating_add(len_fee).saturating_add(adjusted_weight_fee)
}

/// Computes the fee of `transaction` in the balance of the chain that
/// charges it: the base fee is charged for every transaction, every byte
/// costs `per_byte_fee`, and the fee of the weight is adjusted by
/// `multiplier`. `weight_to_fee` converts a weight into a fee and is asked
/// twice, for the base weight and for the dispatch weight.
pub fn transaction_payment<F: Fn(Weight) -> u128>(
    base_extrinsic_weight: Weight,
    per_byte_fee: u128,
    multiplier: FixedU128,
    weight_to_fee: F,
    transaction: MessageTransaction,
) -> (fee: u128)
    requires
        weight_to_fee.requires((base_extrinsic_weight,)),
        weight_to_fee.requires((transaction.dispatch_weight,)),
    ensures
        exists|base_fee: u128, unadjusted_weight_fee: u128|
            #![auto]
            weight_to_fee.ensures((base_extrinsic_weight,), base_fee) && weight_to_fee.ensures(
                (transaction.dispatch_weight,),
                unadjusted_weight_fee,
            ) && fee as int == payment_of(
                base_fee,
                per_byte_fee,
                multiplier,
                unadjusted_weight_fee,
                transaction.size,
            ),
{
    let base_fee = weight_to_fee(base_extrinsic_weight);
    let unadjusted_weight_fee = weight_to_fee(transaction.dispatch_weight);
    payment_from_fees(base_fee, per_byte_fee, multiplier, unadjusted_weight_fee, transaction.size)
}

/// The fee of a transaction where a unit of weight costs a unit of balance.
pub open spec fn identity_fee_payment(
    base_extrinsic_weight: Weight,
    per_byte_fee: u128,
    multiplier: FixedU128,
    transaction: MessageTransaction,
) -> int {
    payment_of(
        base_extrinsic_weight as u128,
        per_byte_fee,
        multiplier,
        transaction.dispatch_weight as u128,
        transaction.size,
    )
}

/// The fee of `transaction` where a unit of weight costs a unit of balance,
/// as on both chains.
pub fn transaction_payment_identity_fee(
    base_extrinsic_weight: Weight,
    per_byte_fee: u128,
    multiplier: FixedU128,
    transaction: MessageTransaction,
) -> (fee: u128)
    ensures
        fee as int == identity_fee_payment(
            base_extrinsic_weight,
            per_byte_fee,
            multiplier,
            transaction,
        ),
{
    let weight_to_fee = |weight: Weight| -> (fee: u128)
        ensures
            fee == weight,
        { weight as u128 };
    transaction_payment(base_extrinsic_weight, per_byte_fee, multiplier, weight_to_fee, transaction)
}

/// The multiplier that a payment of this chain is estimated with: the next
/// multiplier of the chain, raised by the margin `numerator / denominator`.
pub open spec fn biased_multiplier(
    next_fee_multiplier: FixedU128,
    numerator: u128,
    denominator: u128,
) -> FixedU128 {
    let margin = FixedU128 {
        inner: saturate_u128(fixed_of_rational(numerator as int, denominator as int)) as u128,
    };
    FixedU128 { inner: saturate_u128(fixed_times_fixed(margin, next_fee_multiplier)) as u128 }
}

/// Raises the next fee multiplier of a chain by a margin: a transaction
/// that is estimated now may be included when the multiplier has grown.
pub fn bias_multiplier(
    next_fee_multiplier: FixedU128,
    numerator: u128,
    denominator: u128,
) -> (multiplier: FixedU128)
    requires
        denominator != 0,
    ensures
        multiplier == biased_multiplier(next_fee_multiplier, numerator, denominator),
{
    let margin = fixed_saturating_from_rational(numerator, denominator);
    fixed_saturating_mul(margin, next_fee_multiplier)
}

/// `x` as a `u64`, or `u64::MAX` where it is larger.
pub fn clamp_to_u64(x: u128) -> (r: u64)
    ensures
        r as int == saturate_u64(x as int),
{
    if x > u64::MAX as u128 {
        u64::MAX
    } else {
        x as u64
    }
}

/// A balance of the bridged chain in the balance of this chain: the balance
/// times the rate, rounded down.
pub open spec fn converted_balance(bridged_balance: int, rate: FixedU128) -> int {
    fixed_times_int(rate, bridged_balance)
}

/// The rate that a conversion uses: the override where one is given, else
/// the stored rate.
pub open spec fn effective_rate(rate_override: Option<FixedU128>, stored_rate: FixedU128) -> FixedU128 {
    match rate_override {
        Some(rate) => rate,
        None => stored_rate,
    }
}

/// Converts a balance of the bridged chain into the balance of this chain,
/// with the override where one is given and the stored rate else. The
/// result saturates at `u128::MAX`; a rate of zero gives zero.
pub fn bridged_balance_to_this_balance(
    bridged_balance: u128,
    rate_override: Option<FixedU128>,
    stored_rate: FixedU128,
) -> (balance: u128)
    ensures
        balance as int == saturate_u128(
            converted_balance(bridged_balance as int, effective_rate(rate_override, stored_rate)),
        ),
        effective_rate(rate_override, stored_rate).inner == 0 ==> balance == 0,
        bridged_balance == 0 ==> balance == 0,
{
    let conversion_rate = match rate_override {
        Some(rate) => rate,
        None => stored_rate,
    };
    let balance = fixed_saturating_mul_int(conversion_rate, bridged_balance);
    proof {
        if conversion_rate.inner == 0 || bridged_balance == 0 {
            assert(conversion_rate.inner as int * bridged_balance as int == 0) by (nonlinear_arith)
                requires
                    conversion_rate.inner == 0 || bridged_balance == 0,
            ;
        }
    }
    balance
}

} // verus!
