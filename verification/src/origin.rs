//! Who sends a message, and over which lanes messages are accepted.

use crate::chain::LaneId;
use vstd::prelude::*;

verus! {

/// Where a message was sent from.
#[derive(Clone, Copy, Debug, PartialEq, Eq, Structural)]
pub enum OriginCaller {
    /// The XCM pallet sent it; `from_here` says whether from the location
    /// of this chain itself.
    XcmPallet { from_here: bool },
    /// The messages pallet was called directly.
    Other,
}

/// Origin of a call that sends a message.
#[derive(Clone, Copy, Debug, PartialEq, Eq, Structural)]
pub struct Origin {
    pub caller: OriginCaller,
}

impl Origin {
    /// The account that pays for the message: none, XCM deals with fees.
    pub fn linked_account(&self) -> (account: Option<[u8; 32]>)
        ensures
            account is None,
    {
        None
    }
}

/// Whether messages may be sent over `lane`: the bridge serves the lanes
/// `[0, 0, 0, 0]` and `[0, 0, 0, 1]`.
pub open spec fn lane_is_served(lane: LaneId) -> bool {
    lane@ == seq![0u8, 0u8, 0u8, 0u8] || lane@ == seq![0u8, 0u8, 0u8, 1u8]
}

/// Whether messages may be sent over `lane`.
pub fn is_lane_served(lane: &LaneId) -> (served: bool)
    ensures
        served == lane_is_served(*lane),
{
    let served = lane[0] == 0 && lane[1] == 0 && lane[2] == 0 && (lane[3] == 0 || lane[3] == 1);
    proof {
        if served {
            if lane[3] == 0 {
                assert(lane@ =~= seq![0u8, 0u8, 0u8, 0u8]);
            } else {
                assert(lane@ =~= seq![0u8, 0u8, 0u8, 1u8]);
            }
        }
    }
    served
}

} // verus!
