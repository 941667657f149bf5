//! Pass3dt chain specification for CLI.

use crate::bp_pass3dt::Balance;
use crate::calls::{Call, Chain, EncodeError, PalletCall, XcmDestination};
use crate::chain::LaneId;
use crate::cli_bridge::PASS3DT_TO_PASS3D_INDEX;
use vstd::prelude::*;

verus! {

/// Pass3dt chain definition
#[derive(Debug, Clone, Copy, PartialEq, Eq)]
pub struct Pass3dt;

impl Pass3dt {
    /// Name of the chain.
    pub const NAME: &'static str = "Pass3dt";

    /// The call that sends the XCM `message` over the bridge whose pallets
    /// have `bridge_instance_index`: to the network of Pass3d, one level up.
    /// Any other index is refused.
    pub fn encode_send_xcm(
        message: Vec<u8>,
        bridge_instance_index: u8,
        pass3d_network: Vec<u8>,
    ) -> (call: Result<Call, EncodeError>)
        ensures
            bridge_instance_index == PASS3DT_TO_PASS3D_INDEX ==> call == Ok::<Call, EncodeError>(
                Call::Direct(
                    PalletCall::XcmSend {
                        dest: XcmDestination { parents: 1, global_consensus: pass3d_network },
                        message,
                    },
                ),
            ),
            bridge_instance_index != PASS3DT_TO_PASS3D_INDEX ==> call == Err::<Call, EncodeError>(
                EncodeError::UnsupportedBridgeInstance { index: bridge_instance_index },
            ),
    {
        if bridge_instance_index == PASS3DT_TO_PASS3D_INDEX {
            let dest = XcmDestination { parents: 1, global_consensus: pass3d_network };
            Ok(Call::Direct(PalletCall::XcmSend { dest, message }))
        } else {
            Err(EncodeError::UnsupportedBridgeInstance { index: bridge_instance_index })
        }
    }

    /// The call that sends `payload` over `lane` of the bridge whose pallets
    /// have `bridge_instance_index`, paying `fee`. Any index but that of the
    /// bridge to Pass3d is refused.
    pub fn encode_send_message_call(
        lane: LaneId,
        payload: Vec<u8>,
        fee: Balance,
        bridge_instance_index: u8,
    ) -> (call: Result<Call, EncodeError>)
        ensures
            bridge_instance_index == PASS3DT_TO_PASS3D_INDEX ==> call == Ok::<Call, EncodeError>(
                Call::Direct(
                    PalletCall::SendMessage {
                        bridged_chain: Chain::Pass3d,
                        lane_id: lane,
                        payload,
                        delivery_and_dispatch_fee: fee as u128,
                    },
                ),
            ),
            bridge_instance_index != PASS3DT_TO_PASS3D_INDEX ==> call == Err::<Call, EncodeError>(
                EncodeError::UnsupportedBridgeInstance { index: bridge_instance_index },
            ),
    {
        if bridge_instance_index == PASS3DT_TO_PASS3D_INDEX {
            Ok(
                Call::Direct(
                    PalletCall::SendMessage {
                        bridged_chain: Chain::Pass3d,
                        lane_id: lane,
                        payload,
                        delivery_and_dispatch_fee: fee as u128,
                    },
                ),
            )
        } else {
            Err(EncodeError::UnsupportedBridgeInstance { index: bridge_instance_index })
        }
    }
}

} // verus!
