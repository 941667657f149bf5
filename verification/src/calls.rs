//! The calls that the relay asks a chain to make, as values. How a chain
//! encodes them is its own concern.

use crate::chain::{LaneId, MessageNonce, Weight};
use crate::fixed::FixedU128;
use vstd::prelude::*;

verus! {

/// The chains that a bridge can connect.
#[derive(Clone, Copy, Debug, PartialEq, Eq, Structural)]
pub enum Chain {
    Millau,
    Rialto,
    RialtoParachain,
    Westend,
    Pass3d,
    Pass3dt,
}

/// Where an XCM message is sent: `parents` levels up, then to the given
/// consensus system.
#[derive(Clone, Debug, PartialEq, Eq)]
pub struct XcmDestination {
    pub parents: u8,
    /// The encoded identifier of the network.
    pub global_consensus: Vec<u8>,
}

/// A call of a pallet of a runtime.
#[derive(Clone, Debug, PartialEq, Eq)]
pub enum PalletCall {
    /// Leaves a remark in the block.
    SystemRemark { remark: Vec<u8> },
    /// Initializes the pallet that follows the finality of `bridged_chain`.
    BridgeGrandpaInitialize { bridged_chain: Chain, init_data: Vec<u8> },
    /// Submits the finality proof of a header of `bridged_chain`.
    SubmitFinalityProof { bridged_chain: Chain, finality_target: Vec<u8>, justification: Vec<u8> },
    /// Sends an XCM message.
    XcmSend { dest: XcmDestination, message: Vec<u8> },
    /// Sends a message over a lane to `bridged_chain`.
    SendMessage {
        bridged_chain: Chain,
        lane_id: LaneId,
        payload: Vec<u8>,
        delivery_and_dispatch_fee: u128,
    },
    /// Delivers the proved messages of `bridged_chain`.
    ReceiveMessagesProof {
        bridged_chain: Chain,
        relayer: [u8; 32],
        proof: Vec<u8>,
        messages_count: u32,
        dispatch_weight: Weight,
    },
    /// Confirms to the chain what `bridged_chain` has received.
    ReceiveMessagesDeliveryProof { bridged_chain: Chain, proof: Vec<u8> },
    /// Sets the rate that turns a balance of `bridged_chain` into one of
    /// the chain.
    UpdateConversionRate { bridged_chain: Chain, new_rate: FixedU128 },
}

/// A call of a runtime: a call of a pallet, made directly or with the
/// rights of the superuser.
#[derive(Clone, Debug, PartialEq, Eq)]
pub enum Call {
    Direct(PalletCall),
    Sudo(PalletCall),
}

/// Why a call could not be put together.
#[derive(Clone, Copy, Debug, PartialEq, Eq, Structural)]
pub enum EncodeError {
    /// The chain has no bridge pallet of this instance index.
    UnsupportedBridgeInstance { index: u8 },
    /// The range of nonces holds more messages than a call can count.
    TooManyMessages,
}

/// Number of the messages from `begin` to `end`.
pub open spec fn messages_in(begin: MessageNonce, end: MessageNonce) -> int {
    if begin <= end {
        end - begin + 1
    } else {
        0
    }
}

/// The call that delivers the messages from `begin` to `end` of
/// `bridged_chain` with `proof`. A range that holds no message, or more
/// than a `u32` counts, makes no call.
pub fn receive_messages_proof_call(
    bridged_chain: Chain,
    relayer: [u8; 32],
    proof: Vec<u8>,
    begin: MessageNonce,
    end: MessageNonce,
    dispatch_weight: Weight,
) -> (call: Result<Call, EncodeError>)
    ensures
        1 <= messages_in(begin, end) <= u32::MAX <==> call is Ok,
        call is Ok ==> call->Ok_0 == Call::Direct(
            PalletCall::ReceiveMessagesProof {
                bridged_chain,
                relayer,
                proof,
                messages_count: messages_in(begin, end) as u32,
                dispatch_weight,
            },
        ),
        call is Err ==> call->Err_0 == EncodeError::TooManyMessages,
{
    if begin > end || end - begin >= u32::MAX as u64 {
        return Err(EncodeError::TooManyMessages);
    }
    let messages_count = (end - begin + 1) as u32;
    Ok(
        Call::Direct(
            PalletCall::ReceiveMessagesProof {
                bridged_chain,
                relayer,
                proof,
                messages_count,
                dispatch_weight,
            },
        ),
    )
}

} // verus!
