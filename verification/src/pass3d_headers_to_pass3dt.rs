//! Pass3d-to-Pass3dt headers sync entrypoint.

use crate::calls::{Call, Chain, PalletCall};
use vstd::prelude::*;

verus! {

/// Description of Pass3d -> Pass3dt finalized headers bridge.
#[derive(Clone, Debug)]
pub struct Pass3dFinalityToPass3dt;

impl Pass3dFinalityToPass3dt {
    /// The chain whose finality is proved.
    pub fn source_chain() -> (chain: Chain)
        ensures
            chain == Chain::Pass3d,
    {
        Chain::Pass3d
    }

    /// The chain that the proofs are submitted to.
    pub fn target_chain() -> (chain: Chain)
        ensures
            chain == Chain::Pass3dt,
    {
        Chain::Pass3dt
    }

    /// The call of Pass3dt that submits the justification of a Pass3d
    /// header.
    pub fn submit_finality_proof_call(finality_target: Vec<u8>, justification: Vec<u8>) -> (call:
        Call)
        ensures
            call == Call::Direct(
                PalletCall::SubmitFinalityProof {
                    bridged_chain: Chain::Pass3d,
                    finality_target,
                    justification,
                },
            ),
    {
        Call::Direct(
            PalletCall::SubmitFinalityProof {
                bridged_chain: Chain::Pass3d,
                finality_target,
                justification,
            },
        )
    }
}

/// `Pass3d` to `Pass3dt` bridge definition.
#[derive(Clone, Copy, Debug)]
pub struct Pass3dToPass3dtCliBridge {}

impl Pass3dToPass3dtCliBridge {
    /// The chain that the bridge starts at.
    pub fn source() -> (chain: Chain)
        ensures
            chain == Chain::Pass3d,
    {
        Chain::Pass3d
    }

    /// The chain that the bridge leads to.
    pub fn target() -> (chain: Chain)
        ensures
            chain == Chain::Pass3dt,
    {
        Chain::Pass3dt
    }
}

} // verus!
