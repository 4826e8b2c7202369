//! Process-wide wallet state and the conversion orchestrator.
//!
//! The state owns the wrapped-asset wallet, per-user preferences, each
//! user's registered native-chain address, and an append-only conversion
//! ledger per user. A conversion runs as start, transfer, finish: `start`
//! re-checks everything, appends exactly one `Pending` record and raises a
//! per-user in-flight guard; `finish` mutates that record's status exactly
//! once — never its amount, direction or timestamp — and drops the guard.
//! The guard makes a second attempt fail with `ConversionInProgress` while
//! the first is between its suspension points, which closes the race where
//! two interleaved conversions could both observe the same balance and both
//! move it.
//!
//! Converting to the native chain runs entirely against the in-process
//! wrapped ledger, so `convert_to_btc` performs the whole flow in one call.
//! Converting to the wrapped asset needs the gateway and the signer between
//! start and finish; the caller reads the native balance fresh, starts,
//! runs the send, and reports the outcome to `finish_conversion`.

use std::collections::HashMap;

use vstd::prelude::*;

use crate::bytes::clone_bytes;
use crate::ckbtc::{spec_balance_of, spec_minter_deposit_address, CkBTCWallet};
use crate::types::{
    Balances, ConversionRecord, ConversionStatus, Network, UserPreferences, WalletError,
};

verus! {

broadcast use vstd::std_specs::hash::group_hash_axioms;

/// What is left to do outside the library after starting a conversion to
/// the native chain: ask the minter to redeem `amount` toward the user's
/// native address.
pub struct RedeemPlan {
    pub amount: u64,
    pub to_address: Vec<u8>,
}

/// What is left to do outside the library after starting a conversion to
/// the wrapped asset: send `amount` from the user's native address to the
/// minter's deposit address and report the outcome.
pub struct DepositPlan {
    pub amount: u64,
    pub from_address: Vec<u8>,
    pub deposit_address: Vec<u8>,
}

/// Process-wide wallet state: the wrapped-asset wallet, per-user
/// configuration and addresses, the conversion ledger, and the per-user
/// in-flight guard.
pub struct State {
    ckbtc_wallet: Option<CkBTCWallet>,
    user_preferences: HashMap<u64, UserPreferences>,
    btc_addresses: HashMap<u64, Vec<u8>>,
    conversion_history: HashMap<u64, Vec<ConversionRecord>>,
    in_flight: HashMap<u64, bool>,
}

impl State {
    /// The wrapped-asset wallet, if a minter was configured.
    pub closed spec fn spec_minter(&self) -> Option<CkBTCWallet> {
        self.ckbtc_wallet
    }

    /// Per-user preferences as a map.
    pub closed spec fn spec_preferences_map(&self) -> Map<u64, UserPreferences> {
        self.user_preferences@
    }

    /// Registered native-chain addresses as a map.
    pub closed spec fn spec_addresses_map(&self) -> Map<u64, Vec<u8>> {
        self.btc_addresses@
    }

    /// The conversion ledger as a map.
    pub closed spec fn spec_history_map(&self) -> Map<u64, Vec<ConversionRecord>> {
        self.conversion_history@
    }

    /// The in-flight guard as a map.
    pub closed spec fn spec_in_flight_map(&self) -> Map<u64, bool> {
        self.in_flight@
    }

    /// A user's conversion history, oldest first; empty for unknown users.
    pub open spec fn spec_history_of(&self, user: u64) -> Seq<ConversionRecord> {
        if self.spec_history_map().contains_key(user) {
            self.spec_history_map()[user]@
        } else {
            Seq::empty()
        }
    }

    /// Whether a conversion for this user is between start and finish.
    pub open spec fn spec_in_flight(&self, user: u64) -> bool {
        self.spec_in_flight_map().contains_key(user) && self.spec_in_flight_map()[user]
    }

    /// Whether the user has a registered native-chain address.
    pub open spec fn spec_has_address(&self, user: u64) -> bool {
        self.spec_addresses_map().contains_key(user)
    }

    /// The user's registered native-chain address bytes.
    pub open spec fn spec_address_of(&self, user: u64) -> Seq<u8> {
        self.spec_addresses_map()[user]@
    }

    /// Whether a minter was configured.
    pub open spec fn spec_has_minter(&self) -> bool {
        self.spec_minter() is Some
    }

    /// The user's wrapped balance; zero when no minter is configured.
    pub open spec fn spec_wrapped_balance(&self, user: u64) -> u64 {
        match self.spec_minter() {
            Some(w) => spec_balance_of(w.spec_balances(), user),
            None => 0,
        }
    }

    /// The preferences in force for a user: the stored entry, or the
    /// defaults.
    pub open spec fn spec_preference_of(&self, user: u64) -> UserPreferences {
        if self.spec_preferences_map().contains_key(user) {
            self.spec_preferences_map()[user]
        } else {
            UserPreferences {
                preferred_network: Network::Bitcoin,
                auto_convert: false,
                min_amount: 0,
            }
        }
    }

    /// A conversion marked in flight always has its pending record at the
    /// end of the user's history.
    pub open spec fn wf(&self) -> bool {
        forall|u: u64|
            #[trigger] self.spec_in_flight(u) ==> self.spec_history_of(u).len() > 0
                && self.spec_history_of(u).last().status == ConversionStatus::Pending
    }
}

/// The parts of the state not owned by one user's conversion flow are
/// unchanged: configuration, addresses, preferences, and every other
/// user's history, guard and wrapped balance.
pub open spec fn spec_same_but_conversion_of(pre: State, post: State, user: u64) -> bool {
    &&& post.spec_preferences_map() == pre.spec_preferences_map()
    &&& post.spec_addresses_map() == pre.spec_addresses_map()
    &&& post.spec_has_minter() == pre.spec_has_minter()
    &&& forall|u: u64| u != user ==> #[trigger] post.spec_history_of(u) == pre.spec_history_of(u)
    &&& forall|u: u64| u != user ==> #[trigger] post.spec_in_flight(u) == pre.spec_in_flight(u)
    &&& forall|u: u64|
        u != user ==> #[trigger] post.spec_wrapped_balance(u) == pre.spec_wrapped_balance(u)
}

/// Well-formedness only watches the history and the guard, so any step that
/// leaves both maps alone keeps it.
proof fn lemma_wf_preserved(pre: State, post: State)
    requires
        pre.wf(),
        post.spec_history_map() == pre.spec_history_map(),
        post.spec_in_flight_map() == pre.spec_in_flight_map(),
    ensures
        post.wf(),
{
    assert forall|u: u64| #[trigger] post.spec_in_flight(u) implies post.spec_history_of(u).len()
        > 0 && post.spec_history_of(u).last().status == ConversionStatus::Pending by {
        assert(pre.spec_in_flight(u));
    }
}

impl Default for State {
    /// Fresh state: no minter, no users, nothing in flight.
    fn default() -> (state: Self)
        ensures
            state.wf(),
            !state.spec_has_minter(),
            state.spec_preferences_map() == Map::<u64, UserPreferences>::empty(),
            state.spec_addresses_map() == Map::<u64, Vec<u8>>::empty(),
            state.spec_history_map() == Map::<u64, Vec<ConversionRecord>>::empty(),
            state.spec_in_flight_map() == Map::<u64, bool>::empty(),
    {
        State {
            ckbtc_wallet: None,
            user_preferences: HashMap::new(),
            btc_addresses: HashMap::new(),
            conversion_history: HashMap::new(),
            in_flight: HashMap::new(),
        }
    }
}

impl State {
    /// Installs a fresh wrapped-asset wallet when a minter is configured;
    /// leaves the wallet alone otherwise.
    pub fn init(&mut self, minter_id: Option<u64>)
        ensures
            old(self).wf() ==> final(self).wf(),
            match minter_id {
                Some(_) => final(self).spec_has_minter() && forall|u: u64|
                    #[trigger] final(self).spec_wrapped_balance(u) == 0,
                None => final(self).spec_minter() == old(self).spec_minter(),
            },
            final(self).spec_preferences_map() == old(self).spec_preferences_map(),
            final(self).spec_addresses_map() == old(self).spec_addresses_map(),
            final(self).spec_history_map() == old(self).spec_history_map(),
            final(self).spec_in_flight_map() == old(self).spec_in_flight_map(),
    {
        if let Some(id) = minter_id {
            self.ckbtc_wallet = Some(CkBTCWallet::new(id));
        }
        proof {
            if old(self).wf() {
                lemma_wf_preserved(*old(self), *self);
            }
        }
    }

    /// Credits wrapped tokens to a user, for exercising the wallet without
    /// a live minter.
    pub fn mint_wrapped(&mut self, user: u64, amount: u64)
        requires
            old(self).spec_has_minter(),
            old(self).spec_wrapped_balance(user) + amount <= u64::MAX,
        ensures
            old(self).wf() ==> final(self).wf(),
            final(self).spec_wrapped_balance(user) == old(self).spec_wrapped_balance(user)
                + amount,
            spec_same_but_conversion_of(*old(self), *final(self), user),
            final(self).spec_history_of(user) == old(self).spec_history_of(user),
            final(self).spec_in_flight(user) == old(self).spec_in_flight(user),
    {
        match self.ckbtc_wallet.take() {
            Some(mut wallet) => {
                wallet.mint_test_tokens(user, amount);
                self.ckbtc_wallet = Some(wallet);
            },
            None => {},
        }
        proof {
            if old(self).wf() {
                lemma_wf_preserved(*old(self), *self);
            }
        }
    }

    /// Both balances of a user: the wrapped one from the ledger, and the
    /// native one as the caller fetched it from the gateway for the user's
    /// registered address — zero when no address is registered.
    pub fn get_balances(&self, user: u64, btc_balance: u64) -> (balances: Balances)
        ensures
            balances.btc == if self.spec_has_address(user) {
                btc_balance
            } else {
                0u64
            },
            balances.ckbtc == self.spec_wrapped_balance(user),
    {
        let btc = if self.btc_addresses.contains_key(&user) {
            btc_balance
        } else {
            0
        };
        let ckbtc = match &self.ckbtc_wallet {
            Some(wallet) => match wallet.get_ckbtc_balance_sync(user) {
                Ok(b) => b,
                Err(_) => 0,
            },
            None => 0,
        };
        Balances { btc, ckbtc }
    }

    /// The asset network the user prefers; the native chain by default.
    pub fn get_preferred_network(&self, user: u64) -> (network: Network)
        ensures
            network == self.spec_preference_of(user).preferred_network,
    {
        match self.user_preferences.get(&user) {
            Some(prefs) => prefs.preferred_network,
            None => Network::Bitcoin,
        }
    }

    /// Records the user's preferred asset network, keeping the rest of the
    /// stored preferences.
    pub fn set_preferred_network(&mut self, user: u64, network: Network)
        ensures
            old(self).wf() ==> final(self).wf(),
            final(self).spec_preferences_map() == old(self).spec_preferences_map().insert(
                user,
                UserPreferences {
                    preferred_network: network,
                    auto_convert: old(self).spec_preference_of(user).auto_convert,
                    min_amount: old(self).spec_preference_of(user).min_amount,
                },
            ),
            final(self).spec_minter() == old(self).spec_minter(),
            final(self).spec_addresses_map() == old(self).spec_addresses_map(),
            final(self).spec_history_map() == old(self).spec_history_map(),
            final(self).spec_in_flight_map() == old(self).spec_in_flight_map(),
    {
        let mut prefs = match self.user_preferences.get(&user) {
            Some(prefs) => *prefs,
            None => UserPreferences::default(),
        };
        prefs.preferred_network = network;
        self.user_preferences.insert(user, prefs);
        proof {
            if old(self).wf() {
                lemma_wf_preserved(*old(self), *self);
            }
        }
    }

    /// A copy of the user's conversion history, oldest first.
    pub fn get_conversion_history(&self, user: u64) -> (history: Vec<ConversionRecord>)
        ensures
            history@ == self.spec_history_of(user),
    {
        match self.conversion_history.get(&user) {
            Some(records) => {
                let mut out: Vec<ConversionRecord> = Vec::new();
                let mut i: usize = 0;
                while i < records.len()
                    invariant
                        i <= records@.len(),
                        out@ == records@.subrange(0, i as int),
                    decreases records@.len() - i,
                {
                    out.push(records[i]);
                    proof {
                        assert(out@ =~= records@.subrange(0, i + 1));
                    }
                    i = i + 1;
                }
                proof {
                    assert(out@ =~= records@);
                }
                out
            },
            None => Vec::new(),
        }
    }

    /// Registers (or replaces) the user's native-chain address.
    pub fn register_btc_address(&mut self, user: u64, address: Vec<u8>)
        ensures
            old(self).wf() ==> final(self).wf(),
            final(self).spec_addresses_map() == old(self).spec_addresses_map().insert(
                user,
                address,
            ),
            final(self).spec_has_address(user),
            final(self).spec_address_of(user) == address@,
            final(self).spec_minter() == old(self).spec_minter(),
            final(self).spec_preferences_map() == old(self).spec_preferences_map(),
            final(self).spec_history_map() == old(self).spec_history_map(),
            final(self).spec_in_flight_map() == old(self).spec_in_flight_map(),
    {
        self.btc_addresses.insert(user, address);
        proof {
            if old(self).wf() {
                lemma_wf_preserved(*old(self), *self);
            }
        }
    }

    /// Whether a conversion for this user is between start and finish.
    pub fn is_conversion_in_flight(&self, user: u64) -> (in_flight: bool)
        ensures
            in_flight == self.spec_in_flight(user),
    {
        match self.in_flight.get(&user) {
            Some(flag) => *flag,
            None => false,
        }
    }

    /// A copy of the user's registered native-chain address, or
    /// `AddressNotFound`.
    pub fn btc_address_of(&self, user: u64) -> (address: Result<Vec<u8>, WalletError>)
        ensures
            address is Ok <==> self.spec_has_address(user),
            match address {
                Ok(a) => a@ == self.spec_address_of(user),
                Err(e) => e == WalletError::AddressNotFound,
            },
    {
        match self.btc_addresses.get(&user) {
            Some(a) => Ok(clone_bytes(a)),
            None => Err(WalletError::AddressNotFound),
        }
    }
}

impl State {
    /// Starts a conversion of the user's whole wrapped balance to the
    /// native chain: re-checks the minter, the balance, the registered
    /// address and the in-flight guard, then appends exactly one `Pending`
    /// record, raises the guard, and hands back what the redemption needs.
    /// On any failure the state is untouched.
    pub fn start_conversion_to_btc(&mut self, user: u64, now: u64) -> (result: Result<
        RedeemPlan,
        WalletError,
    >)
        requires
            old(self).wf(),
        ensures
            final(self).wf(),
            result is Err <==> (!old(self).spec_has_minter() || old(self).spec_wrapped_balance(user)
                == 0 || !old(self).spec_has_address(user) || old(self).spec_in_flight(user)),
            match result {
                Ok(plan) => {
                    &&& plan.amount == old(self).spec_wrapped_balance(user)
                    &&& plan.amount > 0
                    &&& plan.to_address@ == old(self).spec_address_of(user)
                    &&& final(self).spec_history_of(user) == old(self).spec_history_of(user).push(
                        ConversionRecord {
                            timestamp: now,
                            from_network: Network::CkBTC,
                            to_network: Network::Bitcoin,
                            amount: plan.amount,
                            status: ConversionStatus::Pending,
                        },
                    )
                    &&& final(self).spec_in_flight(user)
                    &&& final(self).spec_minter() == old(self).spec_minter()
                    &&& spec_same_but_conversion_of(*old(self), *final(self), user)
                },
                Err(e) => {
                    &&& *final(self) == *old(self)
                    &&& (e == WalletError::MinterError <==> !old(self).spec_has_minter())
                    &&& (e == WalletError::NoBalance <==> (old(self).spec_has_minter() && old(
                        self,
                    ).spec_wrapped_balance(user) == 0))
                    &&& (e == WalletError::AddressNotFound <==> (old(self).spec_has_minter() && old(
                        self,
                    ).spec_wrapped_balance(user) > 0 && !old(self).spec_has_address(user)))
                    &&& (e == WalletError::ConversionInProgress <==> (old(self).spec_has_minter()
                        && old(self).spec_wrapped_balance(user) > 0 && old(self).spec_has_address(
                        user,
                    ) && old(self).spec_in_flight(user)))
                },
            },
    {
        let balance = match &self.ckbtc_wallet {
            Some(wallet) => match wallet.get_ckbtc_balance_sync(user) {
                Ok(b) => b,
                Err(_) => 0,
            },
            None => {
                return Err(WalletError::MinterError);
            },
        };
        if balance == 0 {
            return Err(WalletError::NoBalance);
        }
        let to_address = match self.btc_addresses.get(&user) {
            Some(a) => clone_bytes(a),
            None => {
                return Err(WalletError::AddressNotFound);
            },
        };
        let already = match self.in_flight.get(&user) {
            Some(f) => *f,
            None => false,
        };
        if already {
            return Err(WalletError::ConversionInProgress);
        }

        let record = ConversionRecord {
            timestamp: now,
            from_network: Network::CkBTC,
            to_network: Network::Bitcoin,
            amount: balance,
            status: ConversionStatus::Pending,
        };
        let mut history = match self.conversion_history.remove(&user) {
            Some(h) => h,
            None => Vec::new(),
        };
        let ghost history_before = history@;
        history.push(record);
        self.conversion_history.insert(user, history);
        self.in_flight.insert(user, true);
        proof {
            assert(history_before == old(self).spec_history_of(user));
            assert(self.spec_history_of(user) =~= old(self).spec_history_of(user).push(record));
            assert forall|u: u64| #[trigger] self.spec_in_flight(u) implies self.spec_history_of(
                u,
            ).len() > 0 && self.spec_history_of(u).last().status == ConversionStatus::Pending by {
                if u != user {
                    assert(old(self).spec_in_flight(u));
                    assert(self.spec_history_of(u) == old(self).spec_history_of(u));
                }
            }
        }
        Ok(RedeemPlan { amount: balance, to_address })
    }

    /// Asks the minter to redeem wrapped tokens toward a native address.
    /// Succeeds exactly when a minter is configured and the user's wrapped
    /// balance covers the amount; the check and the debit are one atomic
    /// step, so two redemptions can never both take the same funds. Touches
    /// nothing but that one balance.
    pub fn redeem_wrapped(&mut self, user: u64, to_address: Vec<u8>, amount: u64) -> (result:
        Result<(), WalletError>)
        requires
            old(self).wf(),
        ensures
            final(self).wf(),
            result is Err <==> (!old(self).spec_has_minter() || old(self).spec_wrapped_balance(user)
                < amount),
            match result {
                Ok(_) => {
                    &&& final(self).spec_wrapped_balance(user) == old(self).spec_wrapped_balance(
                        user,
                    ) - amount
                    &&& final(self).spec_preferences_map() == old(self).spec_preferences_map()
                    &&& final(self).spec_addresses_map() == old(self).spec_addresses_map()
                    &&& final(self).spec_history_map() == old(self).spec_history_map()
                    &&& final(self).spec_in_flight_map() == old(self).spec_in_flight_map()
                    &&& final(self).spec_has_minter()
                    &&& forall|u: u64|
                        u != user ==> #[trigger] final(self).spec_wrapped_balance(u) == old(
                            self,
                        ).spec_wrapped_balance(u)
                },
                Err(e) => {
                    &&& *final(self) == *old(self)
                    &&& (e == WalletError::MinterError <==> !old(self).spec_has_minter())
                    &&& (e == WalletError::InsufficientFunds <==> (old(self).spec_has_minter()
                        && old(self).spec_wrapped_balance(user) < amount))
                },
            },
    {
        match self.ckbtc_wallet.take() {
            Some(mut wallet) => {
                let outcome = wallet.retrieve_btc(user, to_address, amount);
                self.ckbtc_wallet = Some(wallet);
                proof {
                    lemma_wf_preserved(*old(self), *self);
                }
                outcome
            },
            None => Err(WalletError::MinterError),
        }
    }

    /// Records the outcome of the conversion the user has in flight: the
    /// status of the most recently appended record — and only its status —
    /// is mutated, exactly once, and the guard drops.
    pub fn finish_conversion(&mut self, user: u64, status: ConversionStatus)
        requires
            old(self).wf(),
            old(self).spec_in_flight(user),
            status != ConversionStatus::Pending,
        ensures
            final(self).wf(),
            !final(self).spec_in_flight(user),
            final(self).spec_history_of(user) == old(self).spec_history_of(user).update(
                old(self).spec_history_of(user).len() - 1,
                ConversionRecord {
                    timestamp: old(self).spec_history_of(user).last().timestamp,
                    from_network: old(self).spec_history_of(user).last().from_network,
                    to_network: old(self).spec_history_of(user).last().to_network,
                    amount: old(self).spec_history_of(user).last().amount,
                    status,
                },
            ),
            final(self).spec_minter() == old(self).spec_minter(),
            spec_same_but_conversion_of(*old(self), *final(self), user),
    {
        let mut history = match self.conversion_history.remove(&user) {
            Some(h) => h,
            None => Vec::new(),
        };
        let last_index = history.len() - 1;
        let mut last = history[last_index];
        last.status = status;
        history.set(last_index, last);
        self.conversion_history.insert(user, history);
        self.in_flight.insert(user, false);
        proof {
            assert forall|u: u64| #[trigger] self.spec_in_flight(u) implies self.spec_history_of(
                u,
            ).len() > 0 && self.spec_history_of(u).last().status == ConversionStatus::Pending by {
                assert(u != user);
                assert(old(self).spec_in_flight(u));
                assert(self.spec_history_of(u) == old(self).spec_history_of(u));
            }
        }
    }

    /// Converts the user's whole wrapped balance to the native chain in one
    /// call: balance check, address lookup, `Pending` record, redemption at
    /// the minter, and the recorded outcome. Exactly one record is appended
    /// when the checks pass, and since the redemption debits the very
    /// balance that was just read, it cannot fail and the record completes.
    /// When a check fails, the error comes back and nothing is recorded.
    pub fn convert_to_btc(&mut self, user: u64, now: u64) -> (result: Result<(), WalletError>)
        requires
            old(self).wf(),
        ensures
            final(self).wf(),
            result is Err <==> (!old(self).spec_has_minter() || old(self).spec_wrapped_balance(user)
                == 0 || !old(self).spec_has_address(user) || old(self).spec_in_flight(user)),
            match result {
                Ok(_) => {
                    &&& final(self).spec_history_of(user) == old(self).spec_history_of(user).push(
                        ConversionRecord {
                            timestamp: now,
                            from_network: Network::CkBTC,
                            to_network: Network::Bitcoin,
                            amount: old(self).spec_wrapped_balance(user),
                            status: ConversionStatus::Complete,
                        },
                    )
                    &&& final(self).spec_wrapped_balance(user) == 0
                    &&& !final(self).spec_in_flight(user)
                    &&& spec_same_but_conversion_of(*old(self), *final(self), user)
                },
                Err(e) => {
                    &&& *final(self) == *old(self)
                    &&& (e == WalletError::MinterError <==> !old(self).spec_has_minter())
                    &&& (e == WalletError::NoBalance <==> (old(self).spec_has_minter() && old(
                        self,
                    ).spec_wrapped_balance(user) == 0))
                    &&& (e == WalletError::AddressNotFound <==> (old(self).spec_has_minter() && old(
                        self,
                    ).spec_wrapped_balance(user) > 0 && !old(self).spec_has_address(user)))
                    &&& (e == WalletError::ConversionInProgress <==> (old(self).spec_has_minter()
                        && old(self).spec_wrapped_balance(user) > 0 && old(self).spec_has_address(
                        user,
                    ) && old(self).spec_in_flight(user)))
                },
            },
    {
        let plan = match self.start_conversion_to_btc(user, now) {
            Ok(plan) => plan,
            Err(e) => {
                return Err(e);
            },
        };
        let amount = plan.amount;
        let ghost after_start = *self;
        match self.redeem_wrapped(user, plan.to_address, amount) {
            Ok(_) => {
                let ghost after_redeem = *self;
                self.finish_conversion(user, ConversionStatus::Complete);
                proof {
                    let pending = ConversionRecord {
                        timestamp: now,
                        from_network: Network::CkBTC,
                        to_network: Network::Bitcoin,
                        amount,
                        status: ConversionStatus::Pending,
                    };
                    let complete = ConversionRecord { status: ConversionStatus::Complete, ..pending };
                    assert(old(self).spec_history_of(user).push(pending).update(
                        old(self).spec_history_of(user).len() as int,
                        complete,
                    ) =~= old(self).spec_history_of(user).push(complete));
                    assert forall|u: u64| u != user implies #[trigger] self.spec_history_of(u)
                        == old(self).spec_history_of(u) by {
                        assert(after_start.spec_history_of(u) == old(self).spec_history_of(u));
                        assert(after_redeem.spec_history_of(u) == after_start.spec_history_of(u));
                        assert(self.spec_history_of(u) == after_redeem.spec_history_of(u));
                    }
                    assert forall|u: u64| u != user implies #[trigger] self.spec_in_flight(u)
                        == old(self).spec_in_flight(u) by {
                        assert(after_start.spec_in_flight(u) == old(self).spec_in_flight(u));
                        assert(after_redeem.spec_in_flight(u) == after_start.spec_in_flight(u));
                        assert(self.spec_in_flight(u) == after_redeem.spec_in_flight(u));
                    }
                    assert forall|u: u64| u != user implies #[trigger] self.spec_wrapped_balance(u)
                        == old(self).spec_wrapped_balance(u) by {
                        assert(after_start.spec_wrapped_balance(u) == old(
                            self,
                        ).spec_wrapped_balance(u));
                        assert(after_redeem.spec_wrapped_balance(u)
                            == after_start.spec_wrapped_balance(u));
                        assert(self.spec_wrapped_balance(u) == after_redeem.spec_wrapped_balance(
                            u,
                        ));
                    }
                }
                Ok(())
            },
            Err(e) => {
                self.finish_conversion(user, ConversionStatus::Failed(e));
                Err(e)
            },
        }
    }

    /// Starts a conversion of the user's whole native balance, freshly read
    /// by the caller, to the wrapped asset: re-checks the address, the
    /// balance, the minter and the in-flight guard, then appends exactly
    /// one `Pending` record, raises the guard, and hands back what the send
    /// to the minter's deposit address needs. On any failure the state is
    /// untouched — in particular, nothing is ever recorded before the
    /// balance check.
    pub fn start_conversion_to_ckbtc(&mut self, user: u64, btc_balance: u64, now: u64) -> (result:
        Result<DepositPlan, WalletError>)
        requires
            old(self).wf(),
        ensures
            final(self).wf(),
            result is Err <==> (!old(self).spec_has_address(user) || btc_balance == 0 || !old(
                self,
            ).spec_has_minter() || old(self).spec_in_flight(user)),
            match result {
                Ok(plan) => {
                    &&& plan.amount == btc_balance
                    &&& plan.from_address@ == old(self).spec_address_of(user)
                    &&& plan.deposit_address@ == spec_minter_deposit_address()
                    &&& final(self).spec_history_of(user) == old(self).spec_history_of(user).push(
                        ConversionRecord {
                            timestamp: now,
                            from_network: Network::Bitcoin,
                            to_network: Network::CkBTC,
                            amount: btc_balance,
                            status: ConversionStatus::Pending,
                        },
                    )
                    &&& final(self).spec_in_flight(user)
                    &&& final(self).spec_minter() == old(self).spec_minter()
                    &&& spec_same_but_conversion_of(*old(self), *final(self), user)
                },
                Err(e) => {
                    &&& *final(self) == *old(self)
                    &&& (e == WalletError::AddressNotFound <==> !old(self).spec_has_address(user))
                    &&& (e == WalletError::NoBalance <==> (old(self).spec_has_address(user)
                        && btc_balance == 0))
                    &&& (e == WalletError::MinterError <==> (old(self).spec_has_address(user)
                        && btc_balance > 0 && !old(self).spec_has_minter()))
                    &&& (e == WalletError::ConversionInProgress <==> (old(self).spec_has_address(
                        user,
                    ) && btc_balance > 0 && old(self).spec_has_minter() && old(
                        self,
                    ).spec_in_flight(user)))
                },
            },
    {
        let from_address = match self.btc_addresses.get(&user) {
            Some(a) => clone_bytes(a),
            None => {
                return Err(WalletError::AddressNotFound);
            },
        };
        if btc_balance == 0 {
            return Err(WalletError::NoBalance);
        }
        let deposit_address = match &self.ckbtc_wallet {
            Some(wallet) => match wallet.get_btc_address(user) {
                Ok(a) => a,
                Err(e) => {
                    return Err(e);
                },
            },
            None => {
                return Err(WalletError::MinterError);
            },
        };
        let already = match self.in_flight.get(&user) {
            Some(f) => *f,
            None => false,
        };
        if already {
            return Err(WalletError::ConversionInProgress);
        }

        let record = ConversionRecord {
            timestamp: now,
            from_network: Network::Bitcoin,
            to_network: Network::CkBTC,
            amount: btc_balance,
            status: ConversionStatus::Pending,
        };
        let mut history = match self.conversion_history.remove(&user) {
            Some(h) => h,
            None => Vec::new(),
        };
        let ghost history_before = history@;
        history.push(record);
        self.conversion_history.insert(user, history);
        self.in_flight.insert(user, true);
        proof {
            assert(history_before == old(self).spec_history_of(user));
            assert(self.spec_history_of(user) =~= old(self).spec_history_of(user).push(record));
            assert forall|u: u64| #[trigger] self.spec_in_flight(u) implies self.spec_history_of(
                u,
            ).len() > 0 && self.spec_history_of(u).last().status == ConversionStatus::Pending by {
                if u != user {
                    assert(old(self).spec_in_flight(u));
                    assert(self.spec_history_of(u) == old(self).spec_history_of(u));
                }
            }
        }
        Ok(DepositPlan { amount: btc_balance, from_address, deposit_address })
    }
}

} // verus!
