//! Reasons for which an operation is refused.

use vstd::prelude::*;

verus! {

/// Why an operation was refused. Each reason has a numeric code and a
/// description that are written into the ledger's history, so neither may
/// change once published.
#[derive(Clone, Copy, Debug, PartialEq, Eq, Structural)]
pub enum Error {
    /// A wallet with this key is already registered.
    ///
    /// Reported by `CreateWallet`.
    WalletAlreadyExists,
    /// The sending wallet is not registered.
    ///
    /// Reported by `Transfer`.
    SenderNotFound,
    /// A receiving wallet is not registered.
    ///
    /// Reported by `Transfer` and `Issue`.
    ReceiverNotFound,
    /// The sender holds less than the amount to transfer.
    ///
    /// Reported by `Transfer`.
    InsufficientCurrencyAmount,
    /// A balance would leave the range of an unsigned 64-bit integer: a
    /// debit below zero or a credit past the maximum. Balances are computed
    /// with checked arithmetic and never wrap.
    ///
    /// Reported by `Transfer` and `Issue`.
    BalanceOutOfRange,
}

impl Error {
    /// The code of each reason.
    pub open spec fn spec_code(self) -> u8 {
        match self {
            Error::WalletAlreadyExists => 0,
            Error::SenderNotFound => 1,
            Error::ReceiverNotFound => 2,
            Error::InsufficientCurrencyAmount => 3,
            Error::BalanceOutOfRange => 4,
        }
    }

    /// The description of each reason.
    pub open spec fn spec_description(self) -> Seq<char> {
        match self {
            Error::WalletAlreadyExists => "Wallet already exists"@,
            Error::SenderNotFound => "Sender doesn't exist"@,
            Error::ReceiverNotFound => "Receiver doesn't exist"@,
            Error::InsufficientCurrencyAmount => "Insufficient currency amount"@,
            Error::BalanceOutOfRange => "Balance out of range"@,
        }
    }

    /// The stable numeric code recorded for this reason.
    #[verifier::when_used_as_spec(spec_code)]
    pub fn code(self) -> (code: u8)
        ensures
            code == self.spec_code(),
    {
        match self {
            Error::WalletAlreadyExists => 0,
            Error::SenderNotFound => 1,
            Error::ReceiverNotFound => 2,
            Error::InsufficientCurrencyAmount => 3,
            Error::BalanceOutOfRange => 4,
        }
    }

    /// The reason that a code stands for, if any.
    pub fn from_code(code: u8) -> (error: Option<Error>)
        ensures
            error matches Some(e) ==> e.spec_code() == code,
            error is None <==> code > 4,
    {
        match code {
            0 => Some(Error::WalletAlreadyExists),
            1 => Some(Error::SenderNotFound),
            2 => Some(Error::ReceiverNotFound),
            3 => Some(Error::InsufficientCurrencyAmount),
            4 => Some(Error::BalanceOutOfRange),
            _ => None,
        }
    }

    /// The human-readable description recorded for this reason.
    pub fn description(self) -> (text: &'static str)
        ensures
            text@ == self.spec_description(),
    {
        match self {
            Error::WalletAlreadyExists => "Wallet already exists",
            Error::SenderNotFound => "Sender doesn't exist",
            Error::ReceiverNotFound => "Receiver doesn't exist",
            Error::InsufficientCurrencyAmount => "Insufficient currency amount",
            Error::BalanceOutOfRange => "Balance out of range",
        }
    }

    /// Two reasons with the same code are the same reason.
    pub proof fn lemma_code_identifies(self, other: Error)
        ensures
            self.spec_code() == other.spec_code() <==> self == other,
    {
    }
}

} // verus!
