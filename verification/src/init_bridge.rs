//! Initialization of the bridge pallets: which bridges can be initialized,
//! how they are named, and which call initializes each.

use crate::calls::{Call, Chain, PalletCall};
use vstd::prelude::*;
use vstd::string::*;

verus! {

/// Where a chain is reached.
#[derive(Clone, Debug, PartialEq, Eq)]
pub struct ConnectionParams {
    pub host: String,
    pub port: u16,
    pub secure: bool,
}

/// What the transactions at a chain are signed with.
#[derive(Clone, Debug, PartialEq, Eq)]
pub struct SigningParams {
    pub signer: Option<String>,
    pub signer_password: Option<String>,
}

/// Initialize bridge pallet.
#[derive(Clone, Debug, PartialEq, Eq)]
pub struct InitBridge {
    /// A bridge instance to initialize.
    pub bridge: InitBridgeName,
    pub source: ConnectionParams,
    pub target: ConnectionParams,
    pub target_sign: SigningParams,
}

/// Bridge to initialize.
#[derive(Clone, Copy, Debug, PartialEq, Eq, Structural)]
pub enum InitBridgeName {
    MillauToRialto,
    RialtoToMillau,
    WestendToMillau,
    MillauToRialtoParachain,
    Pass3dtToPass3d,
    Pass3dToPass3dt,
}

/// Whether two strings hold the same characters.
pub fn str_eq(a: &str, b: &str) -> (same: bool)
    ensures
        same == (a@ == b@),
{
    let len = a.unicode_len();
    if len != b.unicode_len() {
        return false;
    }
    let mut i: usize = 0;
    while i < len
        invariant
            i <= len,
            len == a@.len(),
            len == b@.len(),
            forall|j: int| 0 <= j < i ==> a@[j] == b@[j],
        decreases len - i,
    {
        if a.get_char(i) != b.get_char(i) {
            return false;
        }
        i += 1;
    }
    assert(a@ =~= b@);
    true
}

impl InitBridgeName {
    /// The name of the bridge on the command line.
    pub open spec fn spec_name(self) -> Seq<char> {
        match self {
            InitBridgeName::MillauToRialto => "millau-to-rialto"@,
            InitBridgeName::RialtoToMillau => "rialto-to-millau"@,
            InitBridgeName::WestendToMillau => "westend-to-millau"@,
            InitBridgeName::MillauToRialtoParachain => "millau-to-rialto-parachain"@,
            InitBridgeName::Pass3dtToPass3d => "pass3dt-to-pass3d"@,
            InitBridgeName::Pass3dToPass3dt => "pass3d-to-pass3dt"@,
        }
    }

    /// The bridge that `name` is the name of, if any.
    pub open spec fn spec_from_name(name: Seq<char>) -> Option<InitBridgeName> {
        if name == InitBridgeName::MillauToRialto.spec_name() {
            Some(InitBridgeName::MillauToRialto)
        } else if name == InitBridgeName::RialtoToMillau.spec_name() {
            Some(InitBridgeName::RialtoToMillau)
        } else if name == InitBridgeName::WestendToMillau.spec_name() {
            Some(InitBridgeName::WestendToMillau)
        } else if name == InitBridgeName::MillauToRialtoParachain.spec_name() {
            Some(InitBridgeName::MillauToRialtoParachain)
        } else if name == InitBridgeName::Pass3dtToPass3d.spec_name() {
            Some(InitBridgeName::Pass3dtToPass3d)
        } else if name == InitBridgeName::Pass3dToPass3dt.spec_name() {
            Some(InitBridgeName::Pass3dToPass3dt)
        } else {
            None
        }
    }

    /// The chain whose finality the bridge follows.
    pub open spec fn spec_source(self) -> Chain {
        match self {
            InitBridgeName::MillauToRialto => Chain::Millau,
            InitBridgeName::RialtoToMillau => Chain::Rialto,
            InitBridgeName::WestendToMillau => Chain::Westend,
            InitBridgeName::MillauToRialtoParachain => Chain::Millau,
            InitBridgeName::Pass3dtToPass3d => Chain::Pass3dt,
            InitBridgeName::Pass3dToPass3dt => Chain::Pass3d,
        }
    }

    /// The chain that holds the bridge pallet.
    pub open spec fn spec_target(self) -> Chain {
        match self {
            InitBridgeName::MillauToRialto => Chain::Rialto,
            InitBridgeName::RialtoToMillau => Chain::Millau,
            InitBridgeName::WestendToMillau => Chain::Millau,
            InitBridgeName::MillauToRialtoParachain => Chain::RialtoParachain,
            InitBridgeName::Pass3dtToPass3d => Chain::Pass3d,
            InitBridgeName::Pass3dToPass3dt => Chain::Pass3dt,
        }
    }

    /// Whether the bridge is initialized with the rights of the superuser.
    /// The bridge from Westend to Millau is not: Millau has one superuser,
    /// and two initializations by the same account could collide.
    pub open spec fn spec_uses_sudo(self) -> bool {
        self != InitBridgeName::WestendToMillau
    }

    /// The name of the bridge on the command line.
    pub fn name(&self) -> (name: &'static str)
        ensures
            name@ == self.spec_name(),
    {
        match self {
            InitBridgeName::MillauToRialto => "millau-to-rialto",
            InitBridgeName::RialtoToMillau => "rialto-to-millau",
            InitBridgeName::WestendToMillau => "westend-to-millau",
            InitBridgeName::MillauToRialtoParachain => "millau-to-rialto-parachain",
            InitBridgeName::Pass3dtToPass3d => "pass3dt-to-pass3d",
            InitBridgeName::Pass3dToPass3dt => "pass3d-to-pass3dt",
        }
    }

    /// The bridge that `name` is the name of; `None` for any other string.
    pub fn from_name(name: &str) -> (bridge: Option<InitBridgeName>)
        ensures
            bridge == InitBridgeName::spec_from_name(name@),
    {
        if str_eq(name, "millau-to-rialto") {
            Some(InitBridgeName::MillauToRialto)
        } else if str_eq(name, "rialto-to-millau") {
            Some(InitBridgeName::RialtoToMillau)
        } else if str_eq(name, "westend-to-millau") {
            Some(InitBridgeName::WestendToMillau)
        } else if str_eq(name, "millau-to-rialto-parachain") {
            Some(InitBridgeName::MillauToRialtoParachain)
        } else if str_eq(name, "pass3dt-to-pass3d") {
            Some(InitBridgeName::Pass3dtToPass3d)
        } else if str_eq(name, "pass3d-to-pass3dt") {
            Some(InitBridgeName::Pass3dToPass3dt)
        } else {
            None
        }
    }

    /// The chain whose finality the bridge follows.
    pub fn source(&self) -> (chain: Chain)
        ensures
            chain == self.spec_source(),
    {
        match self {
            InitBridgeName::MillauToRialto => Chain::Millau,
            InitBridgeName::RialtoToMillau => Chain::Rialto,
            InitBridgeName::WestendToMillau => Chain::Westend,
            InitBridgeName::MillauToRialtoParachain => Chain::Millau,
            InitBridgeName::Pass3dtToPass3d => Chain::Pass3dt,
            InitBridgeName::Pass3dToPass3dt => Chain::Pass3d,
        }
    }

    /// The chain that holds the bridge pallet.
    pub fn target(&self) -> (chain: Chain)
        ensures
            chain == self.spec_target(),
    {
        match self {
            InitBridgeName::MillauToRialto => Chain::Rialto,
            InitBridgeName::RialtoToMillau => Chain::Millau,
            InitBridgeName::WestendToMillau => Chain::Millau,
            InitBridgeName::MillauToRialtoParachain => Chain::RialtoParachain,
            InitBridgeName::Pass3dtToPass3d => Chain::Pass3d,
            InitBridgeName::Pass3dToPass3dt => Chain::Pass3dt,
        }
    }

    /// The call of the target chain that initializes the bridge with
    /// `init_data`: the initialization of the pallet that follows the
    /// source chain, made with the rights of the superuser but for the
    /// bridge from Westend to Millau.
    pub fn encode_init_bridge(&self, init_data: Vec<u8>) -> (call: Call)
        ensures
            self.spec_uses_sudo() ==> call == Call::Sudo(
                PalletCall::BridgeGrandpaInitialize {
                    bridged_chain: self.spec_source(),
                    init_data,
                },
            ),
            !self.spec_uses_sudo() ==> call == Call::Direct(
                PalletCall::BridgeGrandpaInitialize {
                    bridged_chain: self.spec_source(),
                    init_data,
                },
            ),
    {
        let initialize = PalletCall::BridgeGrandpaInitialize {
            bridged_chain: self.source(),
            init_data,
        };
        match self {
            InitBridgeName::WestendToMillau => Call::Direct(initialize),
            _ => Call::Sudo(initialize),
        }
    }
}

/// Every bridge is found again by its name.
pub proof fn lemma_name_round_trip(bridge: InitBridgeName)
    ensures
        InitBridgeName::spec_from_name(bridge.spec_name()) == Some(bridge),
{
    reveal_strlit("millau-to-rialto");
    reveal_strlit("rialto-to-millau");
    reveal_strlit("westend-to-millau");
    reveal_strlit("millau-to-rialto-parachain");
    reveal_strlit("pass3dt-to-pass3d");
    reveal_strlit("pass3d-to-pass3dt");
    assert("millau-to-rialto-parachain"@.len() == 26);
    assert("millau-to-rialto"@[0] != "rialto-to-millau"@[0]);
    assert("pass3dt-to-pass3d"@[6] != "pass3d-to-pass3dt"@[6]);
}

} // verus!
