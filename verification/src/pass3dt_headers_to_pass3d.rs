//! Pass3dt-to-Pass3d headers sync entrypoint.

use crate::calls::{Call, Chain, PalletCall};
use vstd::prelude::*;

verus! {

/// Description of Pass3dt -> Pass3d finalized headers bridge.
#[derive(Clone, Debug)]
pub struct Pass3dtFinalityToPass3d;

impl Pass3dtFinalityToPass3d {
    /// The chain whose finality is proved.
    pub fn source_chain() -> (chain: Chain)
        ensures
            chain == Chain::Pass3dt,
    {
        Chain::Pass3dt
    }

    /// The chain that the proofs are submitted to.
    pub fn target_chain() -> (chain: Chain)
        ensures
            chain == Chain::Pass3d,
    {
        Chain::Pass3d
    }

    /// The call of Pass3d that submits the justification of a Pass3dt
    /// header.
    pub fn submit_finality_proof_call(finality_target: Vec<u8>, justification: Vec<u8>) -> (call:
        Call)
        ensures
            call == Call::Direct(
                PalletCall::SubmitFinalityProof {
                    bridged_chain: Chain::Pass3dt,
                    finality_target,
                    justification,
                },
            ),
    {
        Call::Direct(
            PalletCall::SubmitFinalityProof {
                bridged_chain: Chain::Pass3dt,
                finality_target,
                justification,
            },
        )
    }
}

/// `Pass3dt` to `Pass3d` bridge definition.
#[derive(Clone, Copy, Debug)]
pub struct Pass3dtToPass3dCliBridge {}

impl Pass3dtToPass3dCliBridge {
    /// The chain that the bridge starts at.
    pub fn source() -> (chain: Chain)
        ensures
            chain == Chain::Pass3dt,
    {
        Chain::Pass3dt
    }

    /// The chain that the bridge leads to.
    pub fn target() -> (chain: Chain)
        ensures
            chain == Chain::Pass3d,
    {
        Chain::Pass3d
    }
}

} // verus!
