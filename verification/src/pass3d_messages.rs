//! Everything required to serve Pass3d <-> Pass3dt messages at the Pass3dt
//! chain.

use crate::bp_pass3dt;
use crate::chain::{BlockLimits, ChainConstants, LaneId, MessageNonce, Weight};
use crate::fee::{
    self, bias_multiplier, biased_multiplier, clamp_to_u64, converted_balance, delivery_size,
    delivery_weight, effective_rate, identity_fee_payment, saturate_u32, saturate_u64,
    MessageTransaction,
};
use crate::fixed::{FixedU128, FIXED_DIV};
use crate::origin::{is_lane_served, lane_is_served, Origin};
use vstd::prelude::*;

verus! {

/// Balance of the Pass3d chain.
pub type Pass3dBalance = u128;

/// Balance of the Pass3dt chain.
pub type Pass3dtBalance = bp_pass3dt::Balance;

/// Default lane that is used to send messages to Pass3d.
pub const DEFAULT_XCM_LANE_TO_PASS3D: LaneId = [0, 0, 0, 0];

/// Inner value of the initial `Pass3dToPass3dtConversionRate` parameter:
/// parity.
pub const INITIAL_PASS3D_TO_PASS3DT_CONVERSION_RATE: u128 = FIXED_DIV;

/// Inner value of the initial `Pass3dFeeMultiplier` parameter: parity.
pub const INITIAL_PASS3D_FEE_MULTIPLIER: u128 = FIXED_DIV;

/// Numerator of the margin by which the fee multiplier of this chain is
/// raised when a payment is estimated.
pub const FEE_MULTIPLIER_MARGIN_NUMERATOR: u128 = 110;

/// Denominator of that margin.
pub const FEE_MULTIPLIER_MARGIN_DENOMINATOR: u128 = 100;

/// The parameters of the bridge that governance sets at the Pass3dt chain.
#[derive(Clone, Copy, Debug, PartialEq, Eq, Structural)]
pub struct Parameters {
    /// Pass3d to Pass3dt conversion rate. Initially both tokens are treated
    /// as equal.
    pub pass3d_to_pass3dt_conversion_rate: FixedU128,
    /// Fee multiplier value at Pass3d chain.
    pub pass3d_fee_multiplier: FixedU128,
}

impl Parameters {
    /// The parameters before governance has set any.
    pub fn initial() -> (parameters: Parameters)
        ensures
            parameters.pass3d_to_pass3dt_conversion_rate.inner == FIXED_DIV,
            parameters.pass3d_fee_multiplier.inner == FIXED_DIV,
    {
        Parameters {
            pass3d_to_pass3dt_conversion_rate: FixedU128 {
                inner: INITIAL_PASS3D_TO_PASS3DT_CONVERSION_RATE,
            },
            pass3d_fee_multiplier: FixedU128 { inner: INITIAL_PASS3D_FEE_MULTIPLIER },
        }
    }
}

/// Pass3dt <-> Pass3d message bridge.
#[derive(Clone, Copy, Debug)]
pub struct WithPass3dMessageBridge;

impl WithPass3dMessageBridge {
    /// Share of the fee that the relayer is paid on top of the cost.
    pub const RELAYER_FEE_PERCENT: u32 = 10;

    /// Converts a Pass3d balance into a Pass3dt balance with the override,
    /// or with the stored rate where none is given. The product saturates
    /// at the largest Pass3dt balance.
    pub fn bridged_balance_to_this_balance(
        bridged_balance: Pass3dBalance,
        bridged_to_this_conversion_rate_override: Option<FixedU128>,
        parameters: &Parameters,
    ) -> (balance: Pass3dtBalance)
        ensures
            balance as int == saturate_u64(
                converted_balance(
                    bridged_balance as int,
                    effective_rate(
                        bridged_to_this_conversion_rate_override,
                        parameters.pass3d_to_pass3dt_conversion_rate,
                    ),
                ),
            ),
    {
        let product = fee::bridged_balance_to_this_balance(
            bridged_balance,
            bridged_to_this_conversion_rate_override,
            parameters.pass3d_to_pass3dt_conversion_rate,
        );
        clamp_to_u64(product)
    }
}

/// Pass3dt chain from message lane point of view.
#[derive(Clone, Copy, Debug)]
pub struct Pass3dt;

impl Pass3dt {
    /// Accepts a message on the two lanes of the bridge, whoever sends it.
    pub fn is_message_accepted(send_origin: &Origin, lane: &LaneId) -> (accepted: bool)
        ensures
            accepted == lane_is_served(*lane),
    {
        is_lane_served(lane)
    }

    /// No limit on the messages that wait at an outbound lane.
    pub fn maximal_pending_messages_at_outbound_lane() -> (limit: MessageNonce)
        ensures
            limit == MessageNonce::MAX,
    {
        MessageNonce::MAX
    }

    /// Fee of `transaction` at the Pass3dt chain. The transaction may be
    /// included when the multiplier has grown, so the next multiplier of the
    /// chain is raised by a tenth. Per-byte fee and weight-to-fee are 1:1.
    pub fn transaction_payment(
        transaction: MessageTransaction,
        limits: &BlockLimits,
        next_fee_multiplier: FixedU128,
    ) -> (fee: Pass3dtBalance)
        ensures
            fee as int == saturate_u64(
                identity_fee_payment(
                    limits.base_extrinsic_weight,
                    1,
                    biased_multiplier(
                        next_fee_multiplier,
                        FEE_MULTIPLIER_MARGIN_NUMERATOR,
                        FEE_MULTIPLIER_MARGIN_DENOMINATOR,
                    ),
                    transaction,
                ),
            ),
    {
        let multiplier = bias_multiplier(
            next_fee_multiplier,
            FEE_MULTIPLIER_MARGIN_NUMERATOR,
            FEE_MULTIPLIER_MARGIN_DENOMINATOR,
        );
        clamp_to_u64(
            fee::transaction_payment_identity_fee(
                limits.base_extrinsic_weight,
                1,
                multiplier,
                transaction,
            ),
        )
    }
}

/// Pass3d chain from message lane point of view.
#[derive(Clone, Copy, Debug)]
pub struct Pass3d;

impl Pass3d {
    /// Largest size of a transaction of the Pass3d chain.
    pub fn maximal_extrinsic_size(limits: &BlockLimits) -> (size: u32)
        ensures
            size == limits.max_extrinsic_size,
    {
        limits.max_extrinsic_size
    }

    /// Every dispatch weight that a message declares is accepted.
    pub fn verify_dispatch_weight(_message_payload: &[u8]) -> (valid: bool)
        ensures
            valid,
    {
        true
    }

    /// Estimates the delivery of one message to the Pass3d chain, whose
    /// constants `bridged` holds, proved by a storage proof of the Pass3dt
    /// chain.
    pub fn estimate_delivery_transaction(
        message_payload: &[u8],
        include_pay_dispatch_fee_cost: bool,
        message_dispatch_weight: Weight,
        bridged: &ChainConstants,
    ) -> (transaction: MessageTransaction)
        ensures
            transaction.dispatch_weight as int == delivery_weight(
                *bridged,
                saturate_u32(message_payload@.len() as int),
                include_pay_dispatch_fee_cost,
                message_dispatch_weight as int,
            ),
            transaction.size as int == delivery_size(
                saturate_u32(message_payload@.len() as int),
                bp_pass3dt::EXTRA_STORAGE_PROOF_SIZE as int,
                bridged.tx_extra_bytes as int,
            ),
    {
        fee::estimate_delivery_transaction(
            bridged,
            bp_pass3dt::EXTRA_STORAGE_PROOF_SIZE,
            message_payload,
            include_pay_dispatch_fee_cost,
            message_dispatch_weight,
        )
    }

    /// Fee of `transaction` at the Pass3d chain, with the multiplier that
    /// governance has stored for it. Per-byte fee and weight-to-fee are 1:1.
    pub fn transaction_payment(
        transaction: MessageTransaction,
        limits: &BlockLimits,
        parameters: &Parameters,
    ) -> (fee: Pass3dBalance)
        ensures
            fee as int == identity_fee_payment(
                limits.base_extrinsic_weight,
                1,
                parameters.pass3d_fee_multiplier,
                transaction,
            ),
    {
        let multiplier = parameters.pass3d_fee_multiplier;
        fee::transaction_payment_identity_fee(
            limits.base_extrinsic_weight,
            1,
            multiplier,
            transaction,
        )
    }
}

/// Pass3dt -> Pass3d message lane pallet parameters.
#[derive(Clone, Copy, Debug, PartialEq, Eq, Structural)]
pub enum Pass3dtToPass3dMessagesParameter {
    /// The conversion formula we use is: `Pass3dtTokens = Pass3dTokens *
    /// conversion_rate`.
    Pass3dToPass3dtConversionRate(FixedU128),
}

impl Pass3dtToPass3dMessagesParameter {
    /// Stores the parameter; the others keep their values.
    pub fn save(&self, parameters: &mut Parameters)
        ensures
            final(parameters).pass3d_to_pass3dt_conversion_rate == self->0,
            final(parameters).pass3d_fee_multiplier == old(parameters).pass3d_fee_multiplier,
    {
        match *self {
            Pass3dtToPass3dMessagesParameter::Pass3dToPass3dtConversionRate(conversion_rate) => {
                parameters.pass3d_to_pass3dt_conversion_rate = conversion_rate;
            },
        }
    }
}

} // verus!
