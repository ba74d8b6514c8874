//! The record that the ledger keeps for each registered key.

use vstd::prelude::*;
use crate::keys;
use crate::keys::{PublicKey, HASH_LENGTH, PUBLIC_KEY_LENGTH};

verus! {

/// A wallet as the contracts see it: its balance is a mathematical integer,
/// its key, name and hash are sequences.
pub struct WalletView {
    pub pub_key: Seq<u8>,
    pub name: Seq<char>,
    pub balance: int,
    pub history_hash: Seq<u8>,
}

impl WalletView {
    /// This wallet after `amount` has been added to its balance by the
    /// operation with hash `hash`.
    pub open spec fn credited(self, amount: int, hash: Seq<u8>) -> WalletView {
        WalletView { balance: self.balance + amount, history_hash: hash, ..self }
    }

    /// This wallet after `amount` has been taken from its balance by the
    /// operation with hash `hash`.
    pub open spec fn debited(self, amount: int, hash: Seq<u8>) -> WalletView {
        WalletView { balance: self.balance - amount, history_hash: hash, ..self }
    }

    /// A wallet that an executable ledger can hold: 32-byte key and hash, and
    /// a balance that is not negative and fits in 64 bits.
    pub open spec fn valid(self) -> bool {
        &&& self.pub_key.len() == PUBLIC_KEY_LENGTH
        &&& self.history_hash.len() == HASH_LENGTH
        &&& 0 <= self.balance <= u64::MAX
    }
}

/// A registered wallet.
#[derive(Debug, PartialEq, Eq)]
pub struct Wallet {
    /// The key under which the wallet is registered.
    pub pub_key: PublicKey,
    /// Display name, fixed when the wallet is created.
    pub name: String,
    /// Current balance.
    pub balance: u64,
    /// Hash of the operation that last changed this wallet.
    pub history_hash: keys::Hash,
}

impl View for Wallet {
    type V = WalletView;

    open spec fn view(&self) -> WalletView {
        WalletView {
            pub_key: self.pub_key@,
            name: self.name@,
            balance: self.balance as int,
            history_hash: self.history_hash@,
        }
    }
}

impl Clone for Wallet {
    fn clone(&self) -> (copy: Wallet)
        ensures
            copy == *self,
    {
        Wallet {
            pub_key: self.pub_key,
            name: self.name.clone(),
            balance: self.balance,
            history_hash: self.history_hash,
        }
    }
}

impl Wallet {
    /// A wallet with the given contents.
    pub fn new(pub_key: &PublicKey, name: &str, balance: u64, history_hash: &keys::Hash) -> (wallet:
        Wallet)
        ensures
            wallet@ == (WalletView {
                pub_key: pub_key@,
                name: name@,
                balance: balance as int,
                history_hash: history_hash@,
            }),
    {
        Wallet {
            pub_key: *pub_key,
            name: name.to_owned(),
            balance,
            history_hash: *history_hash,
        }
    }

    /// The key under which the wallet is registered.
    pub fn pub_key(&self) -> (key: &PublicKey)
        ensures
            *key == self.pub_key,
    {
        &self.pub_key
    }

    /// The wallet's display name.
    pub fn name(&self) -> (name: &str)
        ensures
            name@ == self.name@,
    {
        self.name.as_str()
    }

    /// The wallet's balance.
    pub fn balance(&self) -> (balance: u64)
        ensures
            balance == self.balance,
    {
        self.balance
    }

    /// Hash of the operation that last changed this wallet.
    pub fn history_hash(&self) -> (hash: &keys::Hash)
        ensures
            *hash == self.history_hash,
    {
        &self.history_hash
    }

    /// This wallet with a new balance, as left by the operation with hash
    /// `history_hash`.
    pub fn set_balance(self, balance: u64, history_hash: &keys::Hash) -> (wallet: Wallet)
        ensures
            wallet@ == (WalletView {
                balance: balance as int,
                history_hash: history_hash@,
                ..self@
            }),
    {
        Wallet { pub_key: self.pub_key, name: self.name, balance, history_hash: *history_hash }
    }
}

} // verus!
