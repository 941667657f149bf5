//! Relay between the Pass3d and Pass3dt chains: chain descriptors, the fee and
//! conversion model, transaction framing, and the decision logic of the
//! finality and message-lane synchronisation engines.

pub mod bp_pass3dt;
pub mod calls;
pub mod chain;
pub mod chains_pass3d;
pub mod chains_pass3dt;
pub mod cli_bridge;
pub mod client_pass3d;
pub mod conversion_rate;
pub mod fee;
pub mod finality;
pub mod fixed;
pub mod hashing;
pub mod init_bridge;
pub mod lane;
pub mod lane_sync;
pub mod origin;
pub mod pass3d_headers_to_pass3dt;
pub mod pass3d_messages;
pub mod pass3d_messages_to_pass3dt;
pub mod pass3dt_headers_to_pass3d;
pub mod pass3dt_messages;
pub mod pass3dt_messages_to_pass3d;
pub mod retry;
pub mod scale;
pub mod strategy;
