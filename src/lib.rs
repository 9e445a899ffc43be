//! Verified core of a cross-chain token bridge: the payload codec, the
//! decimal scaler, the signature checks, the nonce ledger, the custody
//! decisions and the Send / Receive state machine.
pub mod state;
pub mod scale;
pub mod codec;
pub mod digest;
pub mod signature;
pub mod custody;
pub mod bridge;
pub mod admin;
pub mod laws;
