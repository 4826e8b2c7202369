//! Address derivation and validation.
//!
//! An address is carried as its ASCII bytes. The wallet derives one from a
//! signing-service public key as `hrp "1" tag hex(key)`: a chain-specific
//! human-readable prefix, a separator, one policy tag byte, and the key bytes
//! in lowercase hex. The raw key stands in for the key commitment; producing
//! and checking the on-chain commitment itself is the concern of the chain's
//! consensus rules, not of this wallet. The derived address is a pure
//! function of policy, chain and key, so repeated derivation with an
//! unchanged signing key yields the same address.
//!
//! Validation is by prefix: an address is acceptable for a chain exactly
//! when it starts with that chain's prefix and separator and carries at
//! least one more byte. Addresses of different chains never mix.

use vstd::prelude::*;

use crate::types::{BitcoinNetwork, SpendPolicy};

verus! {

/// Human-readable prefix of each chain.
pub open spec fn spec_hrp(network: BitcoinNetwork) -> Seq<u8> {
    match network {
        BitcoinNetwork::Mainnet => seq![98u8, 99u8],
        BitcoinNetwork::Testnet => seq![116u8, 98u8],
        BitcoinNetwork::Regtest => seq![98u8, 99u8, 114u8, 116u8],
    }
}

/// One tag byte telling the three spend policies apart in an address.
pub open spec fn spec_policy_tag(policy: SpendPolicy) -> u8 {
    match policy {
        SpendPolicy::LegacyKeyHash => 112u8,
        SpendPolicy::TaprootScriptPath => 115u8,
        SpendPolicy::TaprootKeyPath => 107u8,
    }
}

/// Lowercase hex digit for a nibble value below 16.
pub open spec fn spec_hex_digit(n: int) -> u8 {
    if n < 10 {
        (48 + n) as u8
    } else {
        (87 + n) as u8
    }
}

/// Lowercase hex encoding, two digits per byte, high nibble first.
pub open spec fn spec_hex(s: Seq<u8>) -> Seq<u8>
    decreases s.len(),
{
    if s.len() == 0 {
        Seq::empty()
    } else {
        spec_hex(s.drop_last()) + seq![
            spec_hex_digit(s.last() as int / 16),
            spec_hex_digit(s.last() as int % 16),
        ]
    }
}

/// The address derived from a public key for a policy on a chain.
pub open spec fn spec_derive_address(
    policy: SpendPolicy,
    network: BitcoinNetwork,
    key: Seq<u8>,
) -> Seq<u8> {
    spec_hrp(network) + seq![49u8, spec_policy_tag(policy)] + spec_hex(key)
}

/// The chain an address claims to belong to, by its prefix; `None` when no
/// chain's prefix and separator match or nothing follows them.
pub open spec fn spec_address_network(s: Seq<u8>) -> Option<BitcoinNetwork> {
    if s.len() >= 6 && s[0] == 98u8 && s[1] == 99u8 && s[2] == 114u8 && s[3] == 116u8 && s[4]
        == 49u8 {
        Some(BitcoinNetwork::Regtest)
    } else if s.len() >= 4 && s[0] == 98u8 && s[1] == 99u8 && s[2] == 49u8 {
        Some(BitcoinNetwork::Mainnet)
    } else if s.len() >= 4 && s[0] == 116u8 && s[1] == 98u8 && s[2] == 49u8 {
        Some(BitcoinNetwork::Testnet)
    } else {
        None
    }
}

/// Exec mirror of [`spec_policy_tag`].
pub fn policy_tag(policy: SpendPolicy) -> (tag: u8)
    ensures
        tag == spec_policy_tag(policy),
{
    match policy {
        SpendPolicy::LegacyKeyHash => 112u8,
        SpendPolicy::TaprootScriptPath => 115u8,
        SpendPolicy::TaprootKeyPath => 107u8,
    }
}

/// Exec mirror of [`spec_hex_digit`], for a nibble already below 16.
fn hex_digit(n: u8) -> (digit: u8)
    requires
        n < 16,
    ensures
        digit == spec_hex_digit(n as int),
{
    if n < 10 {
        48 + n
    } else {
        87 + n
    }
}

/// Derives the spendable address for a signing-service public key under the
/// given policy on the given chain. A pure function of its inputs.
pub fn derive_address(policy: SpendPolicy, network: BitcoinNetwork, key: &Vec<u8>) -> (addr: Vec<
    u8,
>)
    ensures
        addr@ == spec_derive_address(policy, network, key@),
{
    let mut addr: Vec<u8> = Vec::new();
    match network {
        BitcoinNetwork::Mainnet => {
            addr.push(98u8);
            addr.push(99u8);
        },
        BitcoinNetwork::Testnet => {
            addr.push(116u8);
            addr.push(98u8);
        },
        BitcoinNetwork::Regtest => {
            addr.push(98u8);
            addr.push(99u8);
            addr.push(114u8);
            addr.push(116u8);
        },
    }
    addr.push(49u8);
    addr.push(policy_tag(policy));
    proof {
        assert(addr@ =~= spec_hrp(network) + seq![49u8, spec_policy_tag(policy)]);
        assert(spec_hex(key@.subrange(0, 0)) =~= Seq::<u8>::empty());
    }
    let ghost prefix = addr@;
    let mut i: usize = 0;
    while i < key.len()
        invariant
            i <= key@.len(),
            addr@ == prefix + spec_hex(key@.subrange(0, i as int)),
        decreases key@.len() - i,
    {
        let b = key[i];
        addr.push(hex_digit(b / 16));
        addr.push(hex_digit(b % 16));
        proof {
            let sub1 = key@.subrange(0, i + 1);
            assert(sub1.drop_last() =~= key@.subrange(0, i as int));
            assert(sub1.last() == key@[i as int]);
            assert(addr@ =~= prefix + spec_hex(sub1));
        }
        i = i + 1;
    }
    proof {
        assert(key@.subrange(0, key@.len() as int) =~= key@);
    }
    addr
}

/// Reports which chain an address belongs to, by its prefix.
pub fn address_network(addr: &Vec<u8>) -> (network: Option<BitcoinNetwork>)
    ensures
        network == spec_address_network(addr@),
{
    if addr.len() >= 6 && addr[0] == 98u8 && addr[1] == 99u8 && addr[2] == 114u8 && addr[3] == 116u8
        && addr[4] == 49u8 {
        Some(BitcoinNetwork::Regtest)
    } else if addr.len() >= 4 && addr[0] == 98u8 && addr[1] == 99u8 && addr[2] == 49u8 {
        Some(BitcoinNetwork::Mainnet)
    } else if addr.len() >= 4 && addr[0] == 116u8 && addr[1] == 98u8 && addr[2] == 49u8 {
        Some(BitcoinNetwork::Testnet)
    } else {
        None
    }
}

/// A derived address always belongs to the chain it was derived for.
pub proof fn lemma_derived_address_network(
    policy: SpendPolicy,
    network: BitcoinNetwork,
    key: Seq<u8>,
)
    ensures
        spec_address_network(spec_derive_address(policy, network, key)) == Some(network),
{
    let s = spec_derive_address(policy, network, key);
    match network {
        BitcoinNetwork::Mainnet => {
            assert(s[0] == 98u8 && s[1] == 99u8 && s[2] == 49u8 && s.len() >= 4);
        },
        BitcoinNetwork::Testnet => {
            assert(s[0] == 116u8 && s[1] == 98u8 && s[2] == 49u8 && s.len() >= 4);
        },
        BitcoinNetwork::Regtest => {
            assert(s[0] == 98u8 && s[1] == 99u8 && s[2] == 114u8 && s[3] == 116u8 && s[4] == 49u8
                && s.len() >= 6);
        },
    }
}

/// The derivation-path segment a policy appends to the wallet's base path
/// before asking the signing service for a key: none for the legacy
/// key-hash policy, a fixed tag for each taproot policy.
pub open spec fn spec_path_suffix(policy: SpendPolicy) -> Option<Seq<u8>> {
    match policy {
        SpendPolicy::LegacyKeyHash => None,
        SpendPolicy::TaprootScriptPath => Some(
            seq![115u8, 99u8, 114u8, 105u8, 112u8, 116u8, 95u8, 115u8, 112u8, 101u8, 110u8, 100u8],
        ),
        SpendPolicy::TaprootKeyPath => Some(
            seq![107u8, 101u8, 121u8, 95u8, 115u8, 112u8, 101u8, 110u8, 100u8],
        ),
    }
}

/// Appends the policy's segment to the wallet's base derivation path; the
/// result is what the signing service derives the policy's key under.
pub fn extend_derivation_path(base: Vec<Vec<u8>>, policy: SpendPolicy) -> (path: Vec<Vec<u8>>)
    ensures
        match spec_path_suffix(policy) {
            None => path@ == base@,
            Some(suffix) => {
                &&& path@.len() == base@.len() + 1
                &&& path@.subrange(0, base@.len() as int) == base@
                &&& path@.last()@ == suffix
            },
        },
{
    let ghost base_view = base@;
    let mut path = base;
    match policy {
        SpendPolicy::LegacyKeyHash => {},
        SpendPolicy::TaprootScriptPath => {
            path.push(
                vec![115u8, 99u8, 114u8, 105u8, 112u8, 116u8, 95u8, 115u8, 112u8, 101u8, 110u8, 100u8],
            );
            proof {
                assert(path@.subrange(0, base_view.len() as int) =~= base_view);
            }
        },
        SpendPolicy::TaprootKeyPath => {
            path.push(vec![107u8, 101u8, 121u8, 95u8, 115u8, 112u8, 101u8, 110u8, 100u8]);
            proof {
                assert(path@.subrange(0, base_view.len() as int) =~= base_view);
            }
        },
    }
    path
}

/// Different policies on the same key and chain derive different addresses:
/// the tag byte after the separator tells them apart.
pub proof fn lemma_policy_distinguishes_addresses(
    p1: SpendPolicy,
    p2: SpendPolicy,
    network: BitcoinNetwork,
    key: Seq<u8>,
)
    requires
        p1 != p2,
    ensures
        spec_derive_address(p1, network, key) != spec_derive_address(p2, network, key),
{
    let a1 = spec_derive_address(p1, network, key);
    let a2 = spec_derive_address(p2, network, key);
    let tag_at = spec_hrp(network).len() + 1;
    assert(a1[tag_at as int] == spec_policy_tag(p1));
    assert(a2[tag_at as int] == spec_policy_tag(p2));
    assert(spec_policy_tag(p1) != spec_policy_tag(p2));
}

} // verus!
