//! Core data model: asset networks, spend policies, user preferences,
//! conversion records, and the error taxonomy.
//!
//! User identities are carried as plain `u64` handles; addresses are carried
//! as their ASCII bytes in a `Vec<u8>`. The shell around the library maps the
//! host's opaque principal type to and from these handles.

use vstd::prelude::*;

verus! {

/// The two asset networks between which the wallet converts value: the
/// native chain and its wrapped ledger representation.
#[derive(Clone, Copy, Debug, PartialEq, Eq, Structural)]
pub enum Network {
    Bitcoin,
    CkBTC,
}

/// Which Bitcoin chain the wallet is configured against. Addresses of one
/// chain must never be mixed with another.
#[derive(Clone, Copy, Debug, PartialEq, Eq, Structural)]
pub enum BitcoinNetwork {
    Mainnet,
    Testnet,
    Regtest,
}

/// The three supported spend policies. The policy is a caller decision and
/// determines the derivation-path suffix, the address encoding, and the
/// digest and witness construction used when signing.
#[derive(Clone, Copy, Debug, PartialEq, Eq, Structural)]
pub enum SpendPolicy {
    LegacyKeyHash,
    TaprootScriptPath,
    TaprootKeyPath,
}

/// Everything the engine can fail with. Each component surfaces errors to
/// its immediate caller; only the conversion orchestrator persists one, as
/// the `Failed` status of a record.
#[derive(Clone, Copy, Debug, PartialEq, Eq, Structural)]
pub enum WalletError {
    /// The available inputs do not cover the requested amount plus fee.
    InsufficientFunds,
    /// An address failed to parse or belongs to another Bitcoin chain.
    InvalidAddress,
    /// The user has no registered native-chain address.
    AddressNotFound,
    /// The balance to convert is zero.
    NoBalance,
    /// The threshold signing service errored or returned malformed bytes.
    SigningServiceError,
    /// A fetched public key cannot be parsed under the active policy.
    InvalidPublicKey,
    /// Transport failure from the Bitcoin gateway.
    GatewayError,
    /// The minter service is unavailable or rejected the request.
    MinterError,
    /// Another conversion for the same user is still in flight; the per-user
    /// guard refuses a second attempt until the first records its outcome.
    ConversionInProgress,
}

/// Outcome of one conversion attempt. A record starts `Pending` and its
/// status is mutated exactly once, to `Complete` or `Failed`.
#[derive(Clone, Copy, Debug, PartialEq, Eq, Structural)]
pub enum ConversionStatus {
    Pending,
    Complete,
    Failed(WalletError),
}

/// One entry of the per-user conversion ledger. Once appended, only the
/// status of the most recent entry is ever mutated; timestamp, direction
/// and amount are immutable.
#[derive(Clone, Copy, Debug, PartialEq, Eq, Structural)]
pub struct ConversionRecord {
    pub timestamp: u64,
    pub from_network: Network,
    pub to_network: Network,
    pub amount: u64,
    pub status: ConversionStatus,
}

/// Per-user configuration. The orchestrator reads `preferred_network` as a
/// default; the core algorithms do not consume it.
#[derive(Clone, Copy, Debug, PartialEq, Eq, Structural)]
pub struct UserPreferences {
    pub preferred_network: Network,
    pub auto_convert: bool,
    pub min_amount: u64,
}

impl Default for UserPreferences {
    /// Fresh users prefer the native chain, with auto-conversion off and no
    /// minimum amount.
    fn default() -> (prefs: Self)
        ensures
            prefs == (UserPreferences {
                preferred_network: Network::Bitcoin,
                auto_convert: false,
                min_amount: 0,
            }),
    {
        UserPreferences { preferred_network: Network::Bitcoin, auto_convert: false, min_amount: 0 }
    }
}

/// A user's balance on each side, in satoshi.
#[derive(Clone, Copy, Debug, PartialEq, Eq, Structural)]
pub struct Balances {
    pub btc: u64,
    pub ckbtc: u64,
}

/// A request to send satoshi to a destination address.
pub struct SendRequest {
    pub destination_address: String,
    pub amount_in_satoshi: u64,
}

/// A block height on the native chain.
pub type Height = u32;

/// A raw serialized block header.
pub type BlockHeader = Vec<u8>;

/// A request for the block headers of a given height range.
pub struct GetBlockHeadersRequest {
    pub start_height: Height,
    pub end_height: Option<Height>,
    pub network: BitcoinNetwork,
}

/// The block headers returned for a height range, together with the tip.
pub struct GetBlockHeadersResponse {
    pub tip_height: Height,
    pub block_headers: Vec<BlockHeader>,
}

} // verus!
