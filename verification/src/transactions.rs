//! The three operations on the ledger and what each does to it.

use vstd::prelude::*;
pub use crate::error::Error;
use crate::keys;
use crate::keys::PublicKey;
use crate::ledger::{fresh_wallet, ledger_credited, ledger_debited, Ledger, LedgerView};
use crate::timestamp::{
    decimal_i64, in_window, millis_from_parts, parse_timestamp, utc_now, within_window,
    CLOCK_SECONDS_LIMIT,
};

verus! {

/// Moves `amount` of currency from one wallet to each of three others.
#[derive(Debug, PartialEq, Eq)]
pub struct Transfer {
    /// The sender, who signs the operation.
    pub from: PublicKey,
    /// The first receiver.
    pub to: PublicKey,
    /// The second receiver.
    pub to_second: PublicKey,
    /// The third receiver.
    pub to_third: PublicKey,
    /// What each receiver gets.
    pub amount: u64,
    /// Tells apart operations that are otherwise alike. Has no effect.
    pub seed: u64,
    /// The author's timestamp in milliseconds, written as a decimal integer.
    pub tx_time: String,
    /// Content hash of the signed operation.
    pub hash: keys::Hash,
}

impl Clone for Transfer {
    fn clone(&self) -> (copy: Transfer)
        ensures
            copy == *self,
    {
        Transfer {
            from: self.from,
            to: self.to,
            to_second: self.to_second,
            to_third: self.to_third,
            amount: self.amount,
            seed: self.seed,
            tx_time: self.tx_time.clone(),
            hash: self.hash,
        }
    }
}

impl Transfer {
    /// A transfer with the given contents.
    pub fn new(
        from: &PublicKey,
        to: &PublicKey,
        to_second: &PublicKey,
        to_third: &PublicKey,
        amount: u64,
        seed: u64,
        tx_time: &str,
        hash: &keys::Hash,
    ) -> (transfer: Transfer)
        ensures
            transfer.from == *from,
            transfer.to == *to,
            transfer.to_second == *to_second,
            transfer.to_third == *to_third,
            transfer.amount == amount,
            transfer.seed == seed,
            transfer.tx_time@ == tx_time@,
            transfer.hash == *hash,
    {
        Transfer {
            from: *from,
            to: *to,
            to_second: *to_second,
            to_third: *to_third,
            amount,
            seed,
            tx_time: tx_time.to_owned(),
            hash: *hash,
        }
    }

    /// The sender.
    pub fn from(&self) -> (key: &PublicKey)
        ensures
            *key == self.from,
    {
        &self.from
    }

    /// The first receiver.
    pub fn to(&self) -> (key: &PublicKey)
        ensures
            *key == self.to,
    {
        &self.to
    }

    /// The second receiver.
    pub fn to_second(&self) -> (key: &PublicKey)
        ensures
            *key == self.to_second,
    {
        &self.to_second
    }

    /// The third receiver.
    pub fn to_third(&self) -> (key: &PublicKey)
        ensures
            *key == self.to_third,
    {
        &self.to_third
    }

    /// What each receiver gets.
    pub fn amount(&self) -> (amount: u64)
        ensures
            amount == self.amount,
    {
        self.amount
    }

    /// The seed.
    pub fn seed(&self) -> (seed: u64)
        ensures
            seed == self.seed,
    {
        self.seed
    }

    /// The author's timestamp as written.
    pub fn tx_time(&self) -> (text: &str)
        ensures
            text@ == self.tx_time@,
    {
        self.tx_time.as_str()
    }

    /// Content hash of the signed operation.
    pub fn hash(&self) -> (hash: &keys::Hash)
        ensures
            *hash == self.hash,
    {
        &self.hash
    }

    /// Whether `tx_time` is a timestamp, as `execute` asks.
    pub fn has_timestamp(&self) -> (well_formed: bool)
        ensures
            well_formed == self.well_formed(),
    {
        parse_timestamp(self.tx_time.as_str()).is_some()
    }

    /// Whether `tx_time` is a timestamp. `execute` asks for this.
    pub open spec fn well_formed(&self) -> bool {
        decimal_i64(self.tx_time@) is Some
    }

    /// The author's timestamp, where `tx_time` is one.
    pub open spec fn timestamp(&self) -> int {
        match decimal_i64(self.tx_time@) {
            Some(t) => t,
            None => 0,
        }
    }

    /// What the sender loses: three times the amount.
    pub open spec fn total(&self) -> int {
        3 * self.amount
    }

    /// Why the transfer is refused before the clock is looked at, if it is:
    /// the sender is looked up first, then the receivers, and then the
    /// sender's balance is held against the amount.
    pub open spec fn refusal(&self, ledger: LedgerView) -> Option<Error> {
        if !ledger.dom().contains(self.from@) {
            Some(Error::SenderNotFound)
        } else if !ledger.dom().contains(self.to@) || !ledger.dom().contains(self.to_second@)
            || !ledger.dom().contains(self.to_third@) {
            Some(Error::ReceiverNotFound)
        } else if ledger[self.from@].balance < self.amount {
            Some(Error::InsufficientCurrencyAmount)
        } else {
            None
        }
    }

    /// The ledger after the sender has paid the total and each receiver has
    /// got the amount, in that order; `None` if one of the four steps would
    /// take a balance below zero or past the 64-bit maximum.
    pub open spec fn settled(&self, ledger: LedgerView) -> Option<LedgerView> {
        let hash = self.hash@;
        let amount = self.amount as int;
        if ledger[self.from@].balance < self.total() {
            None
        } else {
            let paid = ledger_debited(ledger, self.from@, self.total(), hash);
            if paid[self.to@].balance + amount > u64::MAX {
                None
            } else {
                let first = ledger_credited(paid, self.to@, amount, hash);
                if first[self.to_second@].balance + amount > u64::MAX {
                    None
                } else {
                    let second = ledger_credited(first, self.to_second@, amount, hash);
                    if second[self.to_third@].balance + amount > u64::MAX {
                        None
                    } else {
                        Some(ledger_credited(second, self.to_third@, amount, hash))
                    }
                }
            }
        }
    }

    /// The result of executing the transfer at time `now`, and the ledger it
    /// leaves. Outside the window the transfer succeeds and changes nothing.
    pub open spec fn outcome(&self, ledger: LedgerView, now: int) -> (Result<(), Error>, LedgerView) {
        match self.refusal(ledger) {
            Some(error) => (Err(error), ledger),
            None => if !in_window(self.timestamp(), now) {
                (Ok(()), ledger)
            } else {
                match self.settled(ledger) {
                    Some(after) => (Ok(()), after),
                    None => (Err(Error::BalanceOutOfRange), ledger),
                }
            },
        }
    }

    /// The current time in milliseconds since the Unix epoch, by this
    /// machine's clock.
    pub fn timestamping(&self) -> (millis: i64)
        ensures
            -1000 * CLOCK_SECONDS_LIMIT <= millis < 1000 * CLOCK_SECONDS_LIMIT + 2_000,
    {
        let (seconds, nanoseconds) = utc_now();
        millis_from_parts(seconds, nanoseconds)
    }

    /// Everything that is decided before the clock is looked at: reads the
    /// timestamp, looks up the sender and then the receivers, and holds the
    /// sender's balance against the amount.
    fn prepare(&self, ledger: &Ledger) -> (prepared: Result<(i64, Parties), Error>)
        requires
            self.well_formed(),
        ensures
            match prepared {
                Ok((tx_time, parties)) => {
                    &&& self.refusal(ledger@) is None
                    &&& tx_time == self.timestamp()
                    &&& parties.holds(*self, ledger@)
                },
                Err(error) => self.refusal(ledger@) == Some(error),
            },
    {
        let tx_time = parse_timestamp(self.tx_time.as_str()).unwrap();
        let sender = match ledger.wallet(&self.from) {
            Some(wallet) => wallet.balance,
            None => {
                return Err(Error::SenderNotFound);
            },
        };
        let first = match ledger.wallet(&self.to) {
            Some(wallet) => wallet.balance,
            None => {
                return Err(Error::ReceiverNotFound);
            },
        };
        let second = match ledger.wallet(&self.to_second) {
            Some(wallet) => wallet.balance,
            None => {
                return Err(Error::ReceiverNotFound);
            },
        };
        let third = match ledger.wallet(&self.to_third) {
            Some(wallet) => wallet.balance,
            None => {
                return Err(Error::ReceiverNotFound);
            },
        };
        if sender < self.amount {
            return Err(Error::InsufficientCurrencyAmount);
        }
        Ok((tx_time, Parties { sender, first, second, third }))
    }

    /// Takes the total from the sender and gives the amount to each
    /// receiver, or refuses without a change if a balance would leave its
    /// range on the way.
    fn settle(&self, ledger: &mut Ledger, parties: &Parties) -> (result: Result<(), Error>)
        requires
            parties.holds(*self, old(ledger)@),
        ensures
            match self.settled(old(ledger)@) {
                Some(after) => result == Ok::<(), Error>(()) && final(ledger)@ == after,
                None => result == Err::<(), Error>(Error::BalanceOutOfRange) && final(ledger)@
                    == old(ledger)@,
            },
    {
        // The balance that each of the four steps would leave, each step
        // seeing what the steps before it did to the same wallet. Nothing is
        // written until all four are known to fit.
        let total = match self.amount.checked_mul(3) {
            Some(total) => total,
            None => {
                return Err(Error::BalanceOutOfRange);
            },
        };
        let sender_left = match parties.sender.checked_sub(total) {
            Some(left) => left,
            None => {
                return Err(Error::BalanceOutOfRange);
            },
        };
        let first_base = if self.to.same_as(&self.from) {
            sender_left
        } else {
            parties.first
        };
        let first_left = match first_base.checked_add(self.amount) {
            Some(left) => left,
            None => {
                return Err(Error::BalanceOutOfRange);
            },
        };
        let second_base = if self.to_second.same_as(&self.to) {
            first_left
        } else if self.to_second.same_as(&self.from) {
            sender_left
        } else {
            parties.second
        };
        let second_left = match second_base.checked_add(self.amount) {
            Some(left) => left,
            None => {
                return Err(Error::BalanceOutOfRange);
            },
        };
        let third_base = if self.to_third.same_as(&self.to_second) {
            second_left
        } else if self.to_third.same_as(&self.to) {
            first_left
        } else if self.to_third.same_as(&self.from) {
            sender_left
        } else {
            parties.third
        };
        if third_base.checked_add(self.amount).is_none() {
            return Err(Error::BalanceOutOfRange);
        }
        ledger.decrease_wallet_balance(&self.from, total, &self.hash);
        ledger.increase_wallet_balance(&self.to, self.amount, &self.hash);
        ledger.increase_wallet_balance(&self.to_second, self.amount, &self.hash);
        ledger.increase_wallet_balance(&self.to_third, self.amount, &self.hash);
        Ok(())
    }

    /// Executes the transfer as if the time were `now`, in milliseconds since
    /// the Unix epoch.
    pub fn execute_at(&self, ledger: &mut Ledger, now: i64) -> (result: Result<(), Error>)
        requires
            self.well_formed(),
        ensures
            result == self.outcome(old(ledger)@, now as int).0,
            final(ledger)@ == self.outcome(old(ledger)@, now as int).1,
    {
        let (tx_time, parties) = match self.prepare(ledger) {
            Ok(prepared) => prepared,
            Err(error) => {
                return Err(error);
            },
        };
        if !within_window(tx_time, now) {
            return Ok(());
        }
        self.settle(ledger, &parties)
    }

    /// Executes the transfer at the time that this machine's clock shows.
    /// The clock is looked at only once the wallets are found and the
    /// sender is seen to hold the amount.
    pub fn execute(&self, ledger: &mut Ledger) -> (result: Result<(), Error>)
        requires
            self.well_formed(),
        ensures
            exists|now: i64|
                result == (#[trigger] self.outcome(old(ledger)@, now as int)).0 && final(ledger)@
                    == self.outcome(old(ledger)@, now as int).1,
    {
        let ghost before = ledger@;
        let (tx_time, parties) = match self.prepare(ledger) {
            Ok(prepared) => prepared,
            Err(error) => {
                assert(self.outcome(before, 0i64 as int).0 == Err::<(), Error>(error));
                return Err(error);
            },
        };
        let current_time = self.timestamping();
        if !within_window(tx_time, current_time) {
            assert(self.outcome(before, current_time as int).1 == before);
            return Ok(());
        }
        let result = self.settle(ledger, &parties);
        assert(result == self.outcome(before, current_time as int).0);
        result
    }
}

/// The balances with which the sender and the three receivers of a transfer
/// are registered.
struct Parties {
    sender: u64,
    first: u64,
    second: u64,
    third: u64,
}

impl Parties {
    /// Whether these are the balances of the four wallets of `transfer` in
    /// `ledger`, all of them registered.
    spec fn holds(&self, transfer: Transfer, ledger: LedgerView) -> bool {
        &&& ledger.dom().contains(transfer.from@)
        &&& ledger.dom().contains(transfer.to@)
        &&& ledger.dom().contains(transfer.to_second@)
        &&& ledger.dom().contains(transfer.to_third@)
        &&& self.sender == ledger[transfer.from@].balance
        &&& self.first == ledger[transfer.to@].balance
        &&& self.second == ledger[transfer.to_second@].balance
        &&& self.third == ledger[transfer.to_third@].balance
    }
}

/// Adds currency to one wallet: the sum of three amounts.
#[derive(Clone, Copy, Debug, PartialEq, Eq)]
pub struct Issue {
    /// The wallet to credit, whose owner signs the operation.
    pub pub_key: PublicKey,
    /// First amount.
    pub amount: u64,
    /// Second amount.
    pub amount_second: u64,
    /// Third amount.
    pub amount_third: u64,
    /// Tells apart operations that are otherwise alike. Has no effect.
    pub seed: u64,
    /// Content hash of the signed operation.
    pub hash: keys::Hash,
}

impl Issue {
    /// An issue with the given contents.
    pub fn new(
        pub_key: &PublicKey,
        amount: u64,
        amount_second: u64,
        amount_third: u64,
        seed: u64,
        hash: &keys::Hash,
    ) -> (issue: Issue)
        ensures
            issue == (Issue {
                pub_key: *pub_key,
                amount,
                amount_second,
                amount_third,
                seed,
                hash: *hash,
            }),
    {
        Issue { pub_key: *pub_key, amount, amount_second, amount_third, seed, hash: *hash }
    }

    /// The wallet to credit.
    pub fn pub_key(&self) -> (key: &PublicKey)
        ensures
            *key == self.pub_key,
    {
        &self.pub_key
    }

    /// First amount.
    pub fn amount(&self) -> (amount: u64)
        ensures
            amount == self.amount,
    {
        self.amount
    }

    /// Second amount.
    pub fn amount_second(&self) -> (amount: u64)
        ensures
            amount == self.amount_second,
    {
        self.amount_second
    }

    /// Third amount.
    pub fn amount_third(&self) -> (amount: u64)
        ensures
            amount == self.amount_third,
    {
        self.amount_third
    }

    /// The seed.
    pub fn seed(&self) -> (seed: u64)
        ensures
            seed == self.seed,
    {
        self.seed
    }

    /// Content hash of the signed operation.
    pub fn hash(&self) -> (hash: &keys::Hash)
        ensures
            *hash == self.hash,
    {
        &self.hash
    }

    /// The sum of the three amounts.
    pub open spec fn total(&self) -> int {
        self.amount + self.amount_second + self.amount_third
    }

    /// The result of executing the issue, and the ledger it leaves.
    pub open spec fn outcome(&self, ledger: LedgerView) -> (Result<(), Error>, LedgerView) {
        if !ledger.dom().contains(self.pub_key@) {
            (Err(Error::ReceiverNotFound), ledger)
        } else if ledger[self.pub_key@].balance + self.total() > u64::MAX {
            (Err(Error::BalanceOutOfRange), ledger)
        } else {
            (Ok(()), ledger_credited(ledger, self.pub_key@, self.total(), self.hash@))
        }
    }

    /// Executes the issue.
    pub fn execute(&self, ledger: &mut Ledger) -> (result: Result<(), Error>)
        ensures
            result == self.outcome(old(ledger)@).0,
            final(ledger)@ == self.outcome(old(ledger)@).1,
    {
        let balance = match ledger.wallet(&self.pub_key) {
            Some(wallet) => wallet.balance,
            None => {
                return Err(Error::ReceiverNotFound);
            },
        };
        let sum = match self.amount_third.checked_add(self.amount) {
            Some(partial) => partial.checked_add(self.amount_second),
            None => None,
        };
        match sum {
            Some(sum_amount) => {
                if balance.checked_add(sum_amount).is_none() {
                    return Err(Error::BalanceOutOfRange);
                }
                ledger.increase_wallet_balance(&self.pub_key, sum_amount, &self.hash);
                Ok(())
            },
            None => Err(Error::BalanceOutOfRange),
        }
    }
}

/// Registers a wallet without currency.
#[derive(Debug, PartialEq, Eq)]
pub struct CreateWallet {
    /// The key of the new wallet, whose owner signs the operation.
    pub pub_key: PublicKey,
    /// The wallet's display name.
    pub name: String,
    /// Content hash of the signed operation.
    pub hash: keys::Hash,
}

impl Clone for CreateWallet {
    fn clone(&self) -> (copy: CreateWallet)
        ensures
            copy == *self,
    {
        CreateWallet { pub_key: self.pub_key, name: self.name.clone(), hash: self.hash }
    }
}

impl CreateWallet {
    /// A creation with the given contents.
    pub fn new(pub_key: &PublicKey, name: &str, hash: &keys::Hash) -> (creation: CreateWallet)
        ensures
            creation.pub_key == *pub_key,
            creation.name@ == name@,
            creation.hash == *hash,
    {
        CreateWallet { pub_key: *pub_key, name: name.to_owned(), hash: *hash }
    }

    /// The key of the new wallet.
    pub fn pub_key(&self) -> (key: &PublicKey)
        ensures
            *key == self.pub_key,
    {
        &self.pub_key
    }

    /// The wallet's display name.
    pub fn name(&self) -> (name: &str)
        ensures
            name@ == self.name@,
    {
        self.name.as_str()
    }

    /// Content hash of the signed operation.
    pub fn hash(&self) -> (hash: &keys::Hash)
        ensures
            *hash == self.hash,
    {
        &self.hash
    }

    /// The result of executing the creation, and the ledger it leaves.
    pub open spec fn outcome(&self, ledger: LedgerView) -> (Result<(), Error>, LedgerView) {
        if ledger.dom().contains(self.pub_key@) {
            (Err(Error::WalletAlreadyExists), ledger)
        } else {
            (Ok(()), ledger.insert(self.pub_key@, fresh_wallet(self.pub_key@, self.name@, self.hash@)))
        }
    }

    /// Executes the creation.
    pub fn execute(&self, ledger: &mut Ledger) -> (result: Result<(), Error>)
        ensures
            result == self.outcome(old(ledger)@).0,
            final(ledger)@ == self.outcome(old(ledger)@).1,
    {
        if !ledger.contains(&self.pub_key) {
            ledger.create_wallet(&self.pub_key, self.name.as_str(), &self.hash);
            Ok(())
        } else {
            Err(Error::WalletAlreadyExists)
        }
    }
}

/// Any one of the three operations.
#[derive(Debug, PartialEq, Eq)]
pub enum WalletTransactions {
    Transfer(Transfer),
    Issue(Issue),
    CreateWallet(CreateWallet),
}

/// Where the processing of an operation ends.
#[derive(Clone, Copy, Debug, PartialEq, Eq, Structural)]
pub enum Status {
    /// The signature was not valid: the operation was not executed.
    Rejected,
    /// The operation was executed and its changes stand.
    Committed,
    /// The operation was executed and refused: the ledger is as before.
    RolledBack(Error),
}

impl Clone for WalletTransactions {
    fn clone(&self) -> (copy: WalletTransactions)
        ensures
            copy == *self,
    {
        match self {
            WalletTransactions::Transfer(transfer) => WalletTransactions::Transfer(transfer.clone()),
            WalletTransactions::Issue(issue) => WalletTransactions::Issue(*issue),
            WalletTransactions::CreateWallet(creation) => WalletTransactions::CreateWallet(
                creation.clone(),
            ),
        }
    }
}

impl WalletTransactions {
    /// Whether the operation can be executed: a transfer's `tx_time` must be
    /// a timestamp.
    pub open spec fn well_formed(&self) -> bool {
        self matches WalletTransactions::Transfer(transfer) ==> transfer.well_formed()
    }

    /// The key that the operation's signature is checked against.
    pub open spec fn spec_signer(&self) -> PublicKey {
        match self {
            WalletTransactions::Transfer(transfer) => transfer.from,
            WalletTransactions::Issue(issue) => issue.pub_key,
            WalletTransactions::CreateWallet(creation) => creation.pub_key,
        }
    }

    /// The result of executing the operation at time `now`, and the ledger
    /// it leaves. Only a transfer looks at the time.
    pub open spec fn outcome(&self, ledger: LedgerView, now: int) -> (Result<(), Error>, LedgerView) {
        match self {
            WalletTransactions::Transfer(transfer) => transfer.outcome(ledger, now),
            WalletTransactions::Issue(issue) => issue.outcome(ledger),
            WalletTransactions::CreateWallet(creation) => creation.outcome(ledger),
        }
    }

    /// Where processing ends for an operation whose signature check gave
    /// `signature_valid`, and the ledger it leaves.
    pub open spec fn processed(&self, signature_valid: bool, ledger: LedgerView, now: int) -> (
        Status,
        LedgerView,
    ) {
        if !signature_valid {
            (Status::Rejected, ledger)
        } else {
            match self.outcome(ledger, now).0 {
                Ok(_) => (Status::Committed, self.outcome(ledger, now).1),
                Err(error) => (Status::RolledBack(error), ledger),
            }
        }
    }

    /// The key that the operation's signature is checked against: the sender
    /// of a transfer, the wallet of an issue or a creation.
    pub fn signer(&self) -> (key: &PublicKey)
        ensures
            *key == self.spec_signer(),
    {
        match self {
            WalletTransactions::Transfer(transfer) => &transfer.from,
            WalletTransactions::Issue(issue) => &issue.pub_key,
            WalletTransactions::CreateWallet(creation) => &creation.pub_key,
        }
    }

    /// Executes the operation as if the time were `now`, in milliseconds
    /// since the Unix epoch.
    pub fn execute_at(&self, ledger: &mut Ledger, now: i64) -> (result: Result<(), Error>)
        requires
            self.well_formed(),
        ensures
            result == self.outcome(old(ledger)@, now as int).0,
            final(ledger)@ == self.outcome(old(ledger)@, now as int).1,
    {
        match self {
            WalletTransactions::Transfer(transfer) => transfer.execute_at(ledger, now),
            WalletTransactions::Issue(issue) => issue.execute(ledger),
            WalletTransactions::CreateWallet(creation) => creation.execute(ledger),
        }
    }

    /// Executes the operation at the time that this machine's clock shows.
    pub fn execute(&self, ledger: &mut Ledger) -> (result: Result<(), Error>)
        requires
            self.well_formed(),
        ensures
            exists|now: i64|
                result == (#[trigger] self.outcome(old(ledger)@, now as int)).0 && final(ledger)@
                    == self.outcome(old(ledger)@, now as int).1,
    {
        let ghost before = ledger@;
        match self {
            WalletTransactions::Transfer(transfer) => {
                let result = transfer.execute(ledger);
                proof {
                    let now = choose|now: i64|
                        result == (#[trigger] transfer.outcome(before, now as int)).0 && ledger@
                            == transfer.outcome(before, now as int).1;
                    assert(result == self.outcome(before, now as int).0);
                }
                result
            },
            WalletTransactions::Issue(issue) => {
                let result = issue.execute(ledger);
                assert(result == self.outcome(before, 0i64 as int).0);
                result
            },
            WalletTransactions::CreateWallet(creation) => {
                let result = creation.execute(ledger);
                assert(result == self.outcome(before, 0i64 as int).0);
                result
            },
        }
    }

    /// Takes an operation through to its end: one whose signature is not
    /// valid is rejected unexecuted, any other is executed as if the time
    /// were `now`. Only a committed operation changes the ledger.
    pub fn process(&self, signature_valid: bool, ledger: &mut Ledger, now: i64) -> (status: Status)
        requires
            signature_valid ==> self.well_formed(),
        ensures
            status == self.processed(signature_valid, old(ledger)@, now as int).0,
            final(ledger)@ == self.processed(signature_valid, old(ledger)@, now as int).1,
    {
        if !signature_valid {
            return Status::Rejected;
        }
        match self.execute_at(ledger, now) {
            Ok(_) => Status::Committed,
            Err(error) => Status::RolledBack(error),
        }
    }

    /// Content hash of the signed operation.
    pub fn hash(&self) -> (hash: &keys::Hash)
        ensures
            *hash == (match *self {
                WalletTransactions::Transfer(transfer) => transfer.hash,
                WalletTransactions::Issue(issue) => issue.hash,
                WalletTransactions::CreateWallet(creation) => creation.hash,
            }),
    {
        match self {
            WalletTransactions::Transfer(transfer) => &transfer.hash,
            WalletTransactions::Issue(issue) => &issue.hash,
            WalletTransactions::CreateWallet(creation) => &creation.hash,
        }
    }

    /// Whether the operation can be executed.
    pub fn is_well_formed(&self) -> (well_formed: bool)
        ensures
            well_formed == self.well_formed(),
    {
        match self {
            WalletTransactions::Transfer(transfer) => transfer.has_timestamp(),
            _ => true,
        }
    }
}

} // verus!
