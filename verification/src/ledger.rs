//! The set of registered wallets, found by key.

use vstd::prelude::*;
use crate::keys;
use crate::keys::PublicKey;
use crate::wallet::{Wallet, WalletView};

verus! {

/// A ledger as the contracts see it: the wallet registered under each key.
pub type LedgerView = Map<Seq<u8>, WalletView>;

/// A ledger that an executable `Ledger` can hold: each wallet is registered
/// under its own key and is valid.
pub open spec fn ledger_valid(ledger: LedgerView) -> bool {
    forall|key: Seq<u8>| #[trigger]
        ledger.dom().contains(key) ==> ledger[key].pub_key == key && ledger[key].valid()
}

/// The wallet that `create_wallet` registers: no currency, and the creating
/// operation as its history.
pub open spec fn fresh_wallet(key: Seq<u8>, name: Seq<char>, hash: Seq<u8>) -> WalletView {
    WalletView { pub_key: key, name, balance: 0, history_hash: hash }
}

/// The ledger after `amount` has been added to the wallet under `key`.
pub open spec fn ledger_credited(ledger: LedgerView, key: Seq<u8>, amount: int, hash: Seq<u8>)
    -> LedgerView {
    ledger.insert(key, ledger[key].credited(amount, hash))
}

/// The ledger after `amount` has been taken from the wallet under `key`.
pub open spec fn ledger_debited(ledger: LedgerView, key: Seq<u8>, amount: int, hash: Seq<u8>)
    -> LedgerView {
    ledger.insert(key, ledger[key].debited(amount, hash))
}

/// The registered wallets. No key is registered twice.
pub struct Ledger {
    wallets: Vec<Wallet>,
}

impl View for Ledger {
    type V = LedgerView;

    closed spec fn view(&self) -> LedgerView {
        Map::new(
            |key: Seq<u8>| Self::holds(self.wallets@, key),
            |key: Seq<u8>| self.wallets@[Self::place(self.wallets@, key)]@,
        )
    }
}

impl Ledger {
    /// Whether `wallets[i]` is registered under `key`.
    spec fn at(wallets: Seq<Wallet>, i: int, key: Seq<u8>) -> bool {
        0 <= i < wallets.len() && wallets[i].pub_key@ == key
    }

    /// Whether some wallet is registered under `key`.
    spec fn holds(wallets: Seq<Wallet>, key: Seq<u8>) -> bool {
        exists|i: int| Self::at(wallets, i, key)
    }

    /// An index of a wallet registered under `key`, if there is one.
    spec fn place(wallets: Seq<Wallet>, key: Seq<u8>) -> int {
        choose|i: int| Self::at(wallets, i, key)
    }

    /// No two wallets share a key.
    spec fn distinct(wallets: Seq<Wallet>) -> bool {
        forall|i: int, j: int|
            0 <= i < wallets.len() && 0 <= j < wallets.len() && i != j
                ==> wallets[i].pub_key@ != wallets[j].pub_key@
    }

    /// What every ledger satisfies.
    #[verifier::type_invariant]
    spec fn well_formed(self) -> bool {
        Self::distinct(self.wallets@)
    }

    /// A ledger without wallets.
    pub fn new() -> (ledger: Ledger)
        ensures
            ledger@ == Map::<Seq<u8>, WalletView>::empty(),
    {
        let ledger = Ledger { wallets: Vec::new() };
        assert(ledger@ =~= Map::<Seq<u8>, WalletView>::empty());
        ledger
    }

    /// Whether a wallet is registered under `key`.
    pub fn contains(&self, key: &PublicKey) -> (found: bool)
        ensures
            found == self@.dom().contains(key@),
    {
        self.position(key).is_some()
    }

    /// The wallet registered under `key`, if there is one.
    pub fn wallet(&self, key: &PublicKey) -> (found: Option<&Wallet>)
        ensures
            found is Some <==> self@.dom().contains(key@),
            found matches Some(w) ==> w@ == self@[key@],
    {
        proof {
            use_type_invariant(self);
        }
        match self.position(key) {
            Some(i) => {
                proof {
                    Self::lemma_place(self.wallets@, i as int);
                }
                Some(&self.wallets[i])
            },
            None => None,
        }
    }

    /// Stores `wallet` under its key, in the place of the wallet registered
    /// there if there is one.
    pub fn put(&mut self, wallet: Wallet)
        ensures
            final(self)@ == old(self)@.insert(wallet.pub_key@, wallet@),
    {
        match self.position(&wallet.pub_key) {
            Some(i) => self.replace_at(i, wallet),
            None => self.append(wallet),
        }
    }

    /// Registers a wallet without currency under a key that is not yet
    /// registered.
    pub fn create_wallet(&mut self, key: &PublicKey, name: &str, hash: &keys::Hash)
        requires
            !old(self)@.dom().contains(key@),
        ensures
            final(self)@ == old(self)@.insert(key@, fresh_wallet(key@, name@, hash@)),
    {
        self.append(Wallet::new(key, name, 0, hash));
    }

    /// Adds `amount` to the balance of the wallet under `key` and records
    /// `hash` as the operation that did so.
    pub fn increase_wallet_balance(&mut self, key: &PublicKey, amount: u64, hash: &keys::Hash)
        requires
            old(self)@.dom().contains(key@),
            old(self)@[key@].balance + amount <= u64::MAX,
        ensures
            final(self)@ == ledger_credited(old(self)@, key@, amount as int, hash@),
    {
        proof {
            use_type_invariant(&*self);
        }
        match self.position(key) {
            Some(i) => {
                proof {
                    Self::lemma_place(self.wallets@, i as int);
                }
                let balance = self.wallets[i].balance + amount;
                self.store(i, balance, hash);
            },
            None => {},
        }
    }

    /// Takes `amount` from the balance of the wallet under `key`, which must
    /// hold as much, and records `hash` as the operation that did so.
    pub fn decrease_wallet_balance(&mut self, key: &PublicKey, amount: u64, hash: &keys::Hash)
        requires
            old(self)@.dom().contains(key@),
            old(self)@[key@].balance >= amount,
        ensures
            final(self)@ == ledger_debited(old(self)@, key@, amount as int, hash@),
    {
        proof {
            use_type_invariant(&*self);
        }
        match self.position(key) {
            Some(i) => {
                proof {
                    Self::lemma_place(self.wallets@, i as int);
                }
                let balance = self.wallets[i].balance - amount;
                self.store(i, balance, hash);
            },
            None => {},
        }
    }

    /// The view of every ledger is valid.
    pub proof fn lemma_view_valid(&self)
        ensures
            ledger_valid(self@),
    {
        assert forall|key: Seq<u8>| #[trigger] self@.dom().contains(key) implies self@[key].pub_key
            == key && self@[key].valid() by {
            let i = Self::place(self.wallets@, key);
            assert(Self::at(self.wallets@, i, key));
        }
    }

    /// The index of the wallet registered under `key`.
    fn position(&self, key: &PublicKey) -> (found: Option<usize>)
        ensures
            found matches Some(i) ==> Self::at(self.wallets@, i as int, key@),
            found is None ==> !Self::holds(self.wallets@, key@),
    {
        let mut i: usize = 0;
        while i < self.wallets.len()
            invariant
                i <= self.wallets.len(),
                forall|j: int| 0 <= j < i ==> !Self::at(self.wallets@, j, key@),
            decreases self.wallets.len() - i,
        {
            if self.wallets[i].pub_key.same_as(key) {
                return Some(i);
            }
            i = i + 1;
        }
        None
    }

    /// Moves the wallets out, leaving the ledger empty for the moment.
    fn take(&mut self) -> (wallets: Vec<Wallet>)
        ensures
            wallets@ == old(self).wallets@,
            final(self).wallets@.len() == 0,
    {
        let mut wallets: Vec<Wallet> = Vec::new();
        std::mem::swap(&mut wallets, &mut self.wallets);
        wallets
    }

    /// Adds a wallet whose key is not yet registered.
    fn append(&mut self, wallet: Wallet)
        requires
            !old(self)@.dom().contains(wallet.pub_key@),
        ensures
            final(self)@ == old(self)@.insert(wallet.pub_key@, wallet@),
    {
        proof {
            use_type_invariant(&*self);
            Self::lemma_push_distinct(self.wallets@, wallet);
        }
        let ghost before = self.wallets@;
        let ghost key = wallet.pub_key@;
        let ghost target = self@.insert(key, wallet@);
        let mut wallets = self.take();
        wallets.push(wallet);
        self.wallets = wallets;
        proof {
            let after = self.wallets@;
            let n = before.len() as int;
            Self::lemma_place(after, n);
            assert forall|k: Seq<u8>| self@.dom().contains(k) <==> target.dom().contains(k) by {
                if Self::holds(after, k) {
                    let i = Self::place(after, k);
                    if i < n {
                        assert(Self::at(before, i, k));
                    }
                }
                if Self::holds(before, k) {
                    let i = Self::place(before, k);
                    assert(Self::at(after, i, k));
                }
            }
            assert forall|k: Seq<u8>| self@.dom().contains(k) implies self@[k] == target[k] by {
                let i = Self::place(after, k);
                Self::lemma_place(after, i);
                if i < n {
                    Self::lemma_place(before, i);
                }
            }
            assert(self@ =~= target);
        }
    }

    /// Puts `wallet` in the place of the wallet at index `i`, which has the
    /// same key.
    fn replace_at(&mut self, i: usize, wallet: Wallet)
        requires
            i < old(self).wallets@.len(),
            old(self).wallets@[i as int].pub_key@ == wallet.pub_key@,
        ensures
            final(self)@ == old(self)@.insert(wallet.pub_key@, wallet@),
    {
        proof {
            use_type_invariant(&*self);
        }
        let ghost before = self.wallets@;
        let ghost key = wallet.pub_key@;
        let ghost target = self@.insert(key, wallet@);
        let mut wallets = self.take();
        wallets.set(i, wallet);
        proof {
            assert forall|j: int| 0 <= j < wallets@.len() implies #[trigger] wallets@[j].pub_key@
                == before[j].pub_key@ by {}
            assert(Self::distinct(wallets@));
        }
        self.wallets = wallets;
        proof {
            let after = self.wallets@;
            assert forall|j: int| 0 <= j < after.len() implies #[trigger] after[j].pub_key@
                == before[j].pub_key@ by {}
            assert forall|k: Seq<u8>| self@.dom().contains(k) <==> target.dom().contains(k) by {
                if Self::holds(after, k) {
                    let j = Self::place(after, k);
                    assert(Self::at(before, j, k));
                }
                if Self::holds(before, k) {
                    let j = Self::place(before, k);
                    assert(Self::at(after, j, k));
                }
                assert(Self::at(after, i as int, key));
            }
            assert forall|k: Seq<u8>| self@.dom().contains(k) implies self@[k] == target[k] by {
                let j = Self::place(after, k);
                Self::lemma_place(after, j);
                assert(Self::at(before, j, k));
                Self::lemma_place(before, j);
            }
            assert(self@ =~= target);
        }
    }

    /// Replaces the balance and history of the wallet at index `i`.
    fn store(&mut self, i: usize, balance: u64, hash: &keys::Hash)
        requires
            i < old(self).wallets@.len(),
        ensures
            final(self)@ == old(self)@.insert(
                old(self).wallets@[i as int].pub_key@,
                (WalletView {
                    balance: balance as int,
                    history_hash: hash@,
                    ..old(self).wallets@[i as int]@
                }),
            ),
    {
        let updated = self.wallets[i].clone().set_balance(balance, hash);
        self.replace_at(i, updated);
    }

    /// Where keys are distinct, the wallet at index `i` is the one that the
    /// view shows under its key.
    proof fn lemma_place(wallets: Seq<Wallet>, i: int)
        requires
            Self::distinct(wallets),
            0 <= i < wallets.len(),
        ensures
            Self::holds(wallets, wallets[i].pub_key@),
            Self::place(wallets, wallets[i].pub_key@) == i,
    {
        assert(Self::at(wallets, i, wallets[i].pub_key@));
    }

    /// Appending a wallet under a key that no wallet has keeps keys distinct.
    proof fn lemma_push_distinct(before: Seq<Wallet>, wallet: Wallet)
        requires
            Self::distinct(before),
            !Self::holds(before, wallet.pub_key@),
        ensures
            Self::distinct(before.push(wallet)),
    {
        let after = before.push(wallet);
        let key = wallet.pub_key@;
        let n = before.len() as int;
        assert forall|i: int, j: int|
            0 <= i < after.len() && 0 <= j < after.len() && i != j implies after[i].pub_key@
            != after[j].pub_key@ by {
            if i < n {
                assert(after[i] == before[i]);
                assert(!Self::at(before, i, key));
            }
            if j < n {
                assert(after[j] == before[j]);
                assert(!Self::at(before, j, key));
            }
        }
    }
}

} // verus!
