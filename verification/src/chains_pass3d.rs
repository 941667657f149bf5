//! Pass3d chain specification for CLI.

use crate::calls::{Call, Chain, EncodeError, PalletCall, XcmDestination};
use crate::chain::LaneId;
use crate::cli_bridge::PASS3D_TO_PASS3DT_INDEX;
use crate::client_pass3d::{Balance, Pass3d};
use vstd::prelude::*;

verus! {

impl Pass3d {
    /// The call that sends the XCM `message` over the bridge whose pallets
    /// have `bridge_instance_index`: to the network of Pass3dt, one level
    /// up. Any other index is refused.
    pub fn encode_send_xcm(
        message: Vec<u8>,
        bridge_instance_index: u8,
        pass3dt_network: Vec<u8>,
    ) -> (call: Result<Call, EncodeError>)
        ensures
            bridge_instance_index == PASS3D_TO_PASS3DT_INDEX ==> call == Ok::<Call, EncodeError>(
                Call::Direct(
                    PalletCall::XcmSend {
                        dest: XcmDestination { parents: 1, global_consensus: pass3dt_network },
                        message,
                    },
                ),
            ),
            bridge_instance_index != PASS3D_TO_PASS3DT_INDEX ==> call == Err::<Call, EncodeError>(
                EncodeError::UnsupportedBridgeInstance { index: bridge_instance_index },
            ),
    {
        if bridge_instance_index == PASS3D_TO_PASS3DT_INDEX {
            let dest = XcmDestination { parents: 1, global_consensus: pass3dt_network };
            Ok(Call::Direct(PalletCall::XcmSend { dest, message }))
        } else {
            Err(EncodeError::UnsupportedBridgeInstance { index: bridge_instance_index })
        }
    }

    /// The call that sends `payload` over `lane` of the bridge whose pallets
    /// have `bridge_instance_index`, paying `fee`. Any index but that of the
    /// bridge to Pass3dt is refused.
    pub fn encode_send_message_call(
        lane: LaneId,
        payload: Vec<u8>,
        fee: Balance,
        bridge_instance_index: u8,
    ) -> (call: Result<Call, EncodeError>)
        ensures
            bridge_instance_index == PASS3D_TO_PASS3DT_INDEX ==> call == Ok::<Call, EncodeError>(
                Call::Direct(
                    PalletCall::SendMessage {
                        bridged_chain: Chain::Pass3dt,
                        lane_id: lane,
                        payload,
                        delivery_and_dispatch_fee: fee,
                    },
                ),
            ),
            bridge_instance_index != PASS3D_TO_PASS3DT_INDEX ==> call == Err::<Call, EncodeError>(
                EncodeError::UnsupportedBridgeInstance { index: bridge_instance_index },
            ),
    {
        if bridge_instance_index == PASS3D_TO_PASS3DT_INDEX {
            Ok(
                Call::Direct(
                    PalletCall::SendMessage {
                        bridged_chain: Chain::Pass3dt,
                        lane_id: lane,
                        payload,
                        delivery_and_dispatch_fee: fee,
                    },
                ),
            )
        } else {
            Err(EncodeError::UnsupportedBridgeInstance { index: bridge_instance_index })
        }
    }
}

} // verus!
