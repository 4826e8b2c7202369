//! The wallet's side of the wrapped asset ("ckBTC"): a per-user ledger of
//! wrapped balances and the minter operations the conversion orchestrator
//! relies on.
//!
//! Balances live in an in-process ledger keyed by user handle; a user
//! without an entry holds zero. Redemption debits atomically: it checks and
//! lowers the balance in one step, so two redemptions can never both take
//! the same funds.

use std::collections::HashMap;

use vstd::prelude::*;

use crate::types::WalletError;

verus! {

broadcast use vstd::std_specs::hash::group_hash_axioms;

/// The balance a ledger assigns to a user: the entry, or zero.
pub open spec fn spec_balance_of(ledger: Map<u64, u64>, owner: u64) -> u64 {
    if ledger.contains_key(owner) {
        ledger[owner]
    } else {
        0
    }
}

/// The ASCII bytes of the deposit address the minter issues, on the test
/// chain this build is configured against.
pub open spec fn spec_minter_deposit_address() -> Seq<u8> {
    seq![116u8, 98u8, 49u8, 113u8, 115u8, 103u8, 53u8, 51u8, 55u8, 108u8, 48u8, 115u8, 112u8, 55u8, 113u8, 106u8, 113u8, 56u8, 104u8, 107u8, 112u8, 117u8, 57u8, 114u8, 112u8, 120u8, 106u8, 118u8, 48u8, 106u8, 120u8, 51u8, 114u8, 99u8, 108u8, 104u8, 99u8, 109u8, 48u8, 107u8, 100u8, 57u8]
}

/// The wrapped-asset wallet: which minter it talks to, and the wrapped
/// balances it accounts for.
pub struct CkBTCWallet {
    minter_id: u64,
    balances: HashMap<u64, u64>,
}

impl CkBTCWallet {
    /// The ledger as a map from user handle to balance.
    pub closed spec fn spec_balances(&self) -> Map<u64, u64> {
        self.balances@
    }

    /// Which minter this wallet talks to.
    pub closed spec fn spec_minter_id(&self) -> u64 {
        self.minter_id
    }

    /// A fresh wallet against the given minter, with an empty ledger.
    pub fn new(minter_id: u64) -> (wallet: Self)
        ensures
            wallet.spec_minter_id() == minter_id,
            wallet.spec_balances() == Map::<u64, u64>::empty(),
    {
        Self { minter_id, balances: HashMap::new() }
    }

    /// Current wrapped balance of a user; zero for an unknown user.
    pub fn get_ckbtc_balance_sync(&self, owner: u64) -> (balance: Result<u64, WalletError>)
        ensures
            balance == Ok::<u64, WalletError>(spec_balance_of(self.spec_balances(), owner)),
    {
        match self.balances.get(&owner) {
            Some(b) => Ok(*b),
            None => Ok(0),
        }
    }

    /// The deposit address to send native funds to for minting. The minter
    /// issues one fixed collection address on the configured test chain.
    pub fn get_btc_address(&self, _owner: u64) -> (address: Result<Vec<u8>, WalletError>)
        ensures
            match address {
                Ok(a) => a@ == spec_minter_deposit_address(),
                Err(_) => false,
            },
    {
        let address = vec![116u8, 98u8, 49u8, 113u8, 115u8, 103u8, 53u8, 51u8, 55u8, 108u8, 48u8, 115u8, 112u8, 55u8, 113u8, 106u8, 113u8, 56u8, 104u8, 107u8, 112u8, 117u8, 57u8, 114u8, 112u8, 120u8, 106u8, 118u8, 48u8, 106u8, 120u8, 51u8, 114u8, 99u8, 108u8, 104u8, 99u8, 109u8, 48u8, 107u8, 100u8, 57u8];
        proof {
            assert(address@ =~= spec_minter_deposit_address());
        }
        Ok(address)
    }

    /// Redeems wrapped tokens toward a native address: burns `amount` from
    /// the owner's balance. Succeeds exactly when the balance covers the
    /// amount; the check and the debit are one atomic step.
    pub fn retrieve_btc(&mut self, owner: u64, _address: Vec<u8>, amount: u64) -> (result: Result<
        (),
        WalletError,
    >)
        ensures
            result is Ok <==> spec_balance_of(old(self).spec_balances(), owner) >= amount,
            final(self).spec_minter_id() == old(self).spec_minter_id(),
            match result {
                Ok(_) => final(self).spec_balances() == old(self).spec_balances().insert(
                    owner,
                    (spec_balance_of(old(self).spec_balances(), owner) - amount) as u64,
                ),
                Err(e) => {
                    &&& *final(self) == *old(self)
                    &&& e == WalletError::InsufficientFunds
                },
            },
    {
        let current_balance = match self.balances.get(&owner) {
            Some(b) => *b,
            None => 0,
        };
        if current_balance < amount {
            return Err(WalletError::InsufficientFunds);
        }
        self.balances.insert(owner, current_balance - amount);
        Ok(())
    }

    /// Current wrapped balance of a user, as the asynchronous entry point
    /// reports it.
    pub fn get_ckbtc_balance(&self, owner: u64) -> (balance: Result<u64, WalletError>)
        ensures
            balance == Ok::<u64, WalletError>(spec_balance_of(self.spec_balances(), owner)),
    {
        self.get_ckbtc_balance_sync(owner)
    }

    /// Credits wrapped tokens to a user, for exercising the wallet without
    /// a live minter.
    pub fn mint_test_tokens(&mut self, owner: u64, amount: u64)
        requires
            spec_balance_of(old(self).spec_balances(), owner) + amount <= u64::MAX,
        ensures
            final(self).spec_minter_id() == old(self).spec_minter_id(),
            final(self).spec_balances() == old(self).spec_balances().insert(
                owner,
                (spec_balance_of(old(self).spec_balances(), owner) + amount) as u64,
            ),
    {
        let current_balance = match self.balances.get(&owner) {
            Some(b) => *b,
            None => 0,
        };
        self.balances.insert(owner, current_balance + amount);
    }
}

} // verus!
