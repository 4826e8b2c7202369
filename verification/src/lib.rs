//! Custodial Bitcoin payment engine for a dual-asset wallet.
//!
//! The library covers the algorithmic core of the wallet: coin selection,
//! fee estimation, raw transaction assembly, per-input signature-hash
//! computation and unlocking-script construction for three spend policies,
//! address derivation, and a per-user conversion orchestrator that moves
//! value between the native chain ("Bitcoin") and its wrapped representation
//! ("ckBTC") while recording an outcome per user.
//!
//! Everything network-facing (the Bitcoin gateway, the threshold signing
//! service, the host runtime) stays outside this crate; callers hand the
//! library plain values fetched from those services and take plain values
//! back.

pub mod address;
pub mod bytes;
pub mod ckbtc;
pub mod coin_select;
pub mod fee;
pub mod script;
pub mod spend;
pub mod state;
pub mod tx;
pub mod types;
pub mod utxo;
