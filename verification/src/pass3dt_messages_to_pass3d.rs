//! Pass3dt-to-Pass3d messages sync entrypoint.

use crate::bp_pass3dt::PASS3D_TO_PASS3DT_CONVERSION_RATE_PARAMETER_NAME;
use crate::calls::{Call, Chain, PalletCall};
use crate::fixed::FixedU128;
use crate::pass3d_messages::Pass3dtToPass3dMessagesParameter;
use crate::pass3d_messages_to_pass3dt::PASS3DT_TO_PASS3D_CONVERSION_RATE_PARAMETER_NAME;
use crate::strategy::MixStrategy;
use vstd::prelude::*;

verus! {

/// Description of Pass3dt -> Pass3d messages bridge.
#[derive(Clone, Debug)]
pub struct Pass3dtMessagesToPass3d;

impl Pass3dtMessagesToPass3d {
    /// The chain that sends the messages.
    pub fn source_chain() -> (chain: Chain)
        ensures
            chain == Chain::Pass3dt,
    {
        Chain::Pass3dt
    }

    /// The chain that receives the messages.
    pub fn target_chain() -> (chain: Chain)
        ensures
            chain == Chain::Pass3d,
    {
        Chain::Pass3d
    }

    /// Name of the parameter of the target chain that holds the rate from
    /// the balance of the source chain to that of the target chain.
    pub fn source_to_target_conversion_rate_parameter_name() -> (name: Option<&'static str>)
        ensures
            name == Some(PASS3DT_TO_PASS3D_CONVERSION_RATE_PARAMETER_NAME),
    {
        Some(PASS3DT_TO_PASS3D_CONVERSION_RATE_PARAMETER_NAME)
    }

    /// Name of the parameter of the source chain that holds the rate from
    /// the balance of the target chain to that of the source chain.
    pub fn target_to_source_conversion_rate_parameter_name() -> (name: Option<&'static str>)
        ensures
            name == Some(PASS3D_TO_PASS3DT_CONVERSION_RATE_PARAMETER_NAME),
    {
        Some(PASS3D_TO_PASS3DT_CONVERSION_RATE_PARAMETER_NAME)
    }

    /// The strategy of the lane: ranges that do not pay are delivered once
    /// they are older than `max_backlog_age`.
    pub fn relay_strategy(max_backlog_age: u64) -> (strategy: MixStrategy)
        ensures
            strategy.max_backlog_age == max_backlog_age,
    {
        MixStrategy { max_backlog_age }
    }

    /// The parameter of the messages pallet of Pass3dt that carries
    /// `new_rate`.
    pub fn conversion_rate_parameter(new_rate: FixedU128) -> (parameter:
        Pass3dtToPass3dMessagesParameter)
        ensures
            parameter == Pass3dtToPass3dMessagesParameter::Pass3dToPass3dtConversionRate(new_rate),
    {
        Pass3dtToPass3dMessagesParameter::Pass3dToPass3dtConversionRate(new_rate)
    }

    /// The call of Pass3dt that sets the rate from the Pass3d balance to the
    /// Pass3dt balance to `new_rate`.
    pub fn update_conversion_rate_call(new_rate: FixedU128) -> (call: Call)
        ensures
            call == Call::Direct(
                PalletCall::UpdateConversionRate { bridged_chain: Chain::Pass3d, new_rate },
            ),
    {
        match Self::conversion_rate_parameter(new_rate) {
            Pass3dtToPass3dMessagesParameter::Pass3dToPass3dtConversionRate(rate) => Call::Direct(
                PalletCall::UpdateConversionRate { bridged_chain: Chain::Pass3d, new_rate: rate },
            ),
        }
    }

    /// The call of Pass3dt that confirms what Pass3d has received.
    pub fn receive_messages_delivery_proof_call(proof: Vec<u8>) -> (call: Call)
        ensures
            call == Call::Direct(
                PalletCall::ReceiveMessagesDeliveryProof { bridged_chain: Chain::Pass3d, proof },
            ),
    {
        Call::Direct(
            PalletCall::ReceiveMessagesDeliveryProof { bridged_chain: Chain::Pass3d, proof },
        )
    }
}

} // verus!
