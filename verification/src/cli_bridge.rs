//! The bridges of the relay: which instance of the bridge pallets of a chain
//! serves which bridge.

use vstd::prelude::*;

verus! {

/// Index of the instance of the bridge pallets at Pass3d that serves the
/// bridge to Pass3dt.
pub const PASS3D_TO_PASS3DT_INDEX: u8 = 0;

/// Index of the instance of the bridge pallets at Pass3dt that serves the
/// bridge to Pass3d.
pub const PASS3DT_TO_PASS3D_INDEX: u8 = 0;

} // verus!
