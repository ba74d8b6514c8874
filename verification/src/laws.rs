//! What holds of the operations on every ledger.

use vstd::prelude::*;
use crate::error::Error;
use crate::ledger::{ledger_credited, ledger_debited, ledger_valid, LedgerView};
use crate::timestamp::in_window;
use crate::transactions::{CreateWallet, Issue, Transfer, WalletTransactions};

verus! {

/// The ledger after a run of operations, each executed at its own time, one
/// after the other. An operation that is refused leaves no trace.
pub open spec fn replay(ledger: LedgerView, steps: Seq<(WalletTransactions, int)>) -> LedgerView
    decreases steps.len(),
{
    if steps.len() == 0 {
        ledger
    } else {
        let before = replay(ledger, steps.drop_last());
        steps.last().0.outcome(before, steps.last().1).1
    }
}

/// What a settled transfer adds to the balance of the wallet under `key`:
/// minus three times the amount if it is the sender, plus the amount for
/// each receiving role it has.
pub open spec fn transfer_delta(transfer: Transfer, key: Seq<u8>) -> int {
    (if key == transfer.from@ { -3 * transfer.amount } else { 0 })
    + (if key == transfer.to@ { transfer.amount as int } else { 0 })
    + (if key == transfer.to_second@ { transfer.amount as int } else { 0 })
    + (if key == transfer.to_third@ { transfer.amount as int } else { 0 })
}

/// Whether `key` is the sender or a receiver of `transfer`.
pub open spec fn transfer_touches(transfer: Transfer, key: Seq<u8>) -> bool {
    key == transfer.from@ || key == transfer.to@ || key == transfer.to_second@
        || key == transfer.to_third@
}

/// No operation takes a balance below zero or past the 64-bit maximum: one
/// operation leaves a valid ledger valid.
pub proof fn lemma_outcome_valid(operation: WalletTransactions, ledger: LedgerView, now: int)
    requires
        ledger_valid(ledger),
    ensures
        ledger_valid(operation.outcome(ledger, now).1),
{
    let after = operation.outcome(ledger, now).1;
    match operation {
        WalletTransactions::Transfer(transfer) => {
            if after != ledger {
                let hash = transfer.hash@;
                let amount = transfer.amount as int;
                let paid = ledger_debited(ledger, transfer.from@, transfer.total(), hash);
                let first = ledger_credited(paid, transfer.to@, amount, hash);
                let second = ledger_credited(first, transfer.to_second@, amount, hash);
                assert(ledger_valid(paid));
                assert(ledger_valid(first));
                assert(ledger_valid(second));
            }
        },
        WalletTransactions::Issue(issue) => {},
        WalletTransactions::CreateWallet(creation) => {},
    }
}

/// Balances are never negative: after any run of operations on a valid
/// ledger, every wallet holds an amount between zero and the 64-bit maximum.
pub proof fn lemma_balances_never_negative(ledger: LedgerView, steps: Seq<(WalletTransactions, int)>)
    requires
        ledger_valid(ledger),
    ensures
        ledger_valid(replay(ledger, steps)),
        forall|key: Seq<u8>| #[trigger]
            replay(ledger, steps).dom().contains(key) ==> 0 <= replay(ledger, steps)[key].balance
                <= u64::MAX,
    decreases steps.len(),
{
    if steps.len() > 0 {
        lemma_balances_never_negative(ledger, steps.drop_last());
        lemma_outcome_valid(steps.last().0, replay(ledger, steps.drop_last()), steps.last().1);
    }
}

/// No operation removes a wallet.
pub proof fn lemma_wallet_stays(
    operation: WalletTransactions,
    ledger: LedgerView,
    now: int,
    key: Seq<u8>,
)
    requires
        ledger.dom().contains(key),
    ensures
        operation.outcome(ledger, now).1.dom().contains(key),
{
}

/// A wallet, once registered, is registered after any run of operations.
pub proof fn lemma_wallet_persists(
    ledger: LedgerView,
    steps: Seq<(WalletTransactions, int)>,
    key: Seq<u8>,
)
    requires
        ledger.dom().contains(key),
    ensures
        replay(ledger, steps).dom().contains(key),
    decreases steps.len(),
{
    if steps.len() > 0 {
        lemma_wallet_persists(ledger, steps.drop_last(), key);
        lemma_wallet_stays(steps.last().0, replay(ledger, steps.drop_last()), steps.last().1, key);
    }
}

/// Creating a wallet leaves its key registered, whether the creation
/// succeeded or the key was registered before.
pub proof fn lemma_creation_registers(creation: CreateWallet, ledger: LedgerView)
    ensures
        creation.outcome(ledger).1.dom().contains(creation.pub_key@),
{
}

/// A second creation for the same key never succeeds and never changes the
/// ledger, whatever ran between the two: it is refused because the wallet
/// already exists.
pub proof fn lemma_second_creation_refused(
    first: CreateWallet,
    second: CreateWallet,
    ledger: LedgerView,
    between: Seq<(WalletTransactions, int)>,
)
    requires
        first.pub_key@ == second.pub_key@,
    ensures
        ({
            let before = replay(first.outcome(ledger).1, between);
            second.outcome(before) == (Err::<(), Error>(Error::WalletAlreadyExists), before)
        }),
{
    lemma_creation_registers(first, ledger);
    lemma_wallet_persists(first.outcome(ledger).1, between, first.pub_key@);
}

/// An issue to a key that is not registered is refused, the receiver not
/// being found, and changes nothing.
pub proof fn lemma_issue_to_unknown_key(issue: Issue, ledger: LedgerView)
    requires
        !ledger.dom().contains(issue.pub_key@),
    ensures
        issue.outcome(ledger) == (Err::<(), Error>(Error::ReceiverNotFound), ledger),
{
}

/// A transfer is applied whole or not at all. Either the ledger is as it
/// was, or the transfer succeeded inside its window and every wallet's
/// balance has moved by exactly its share: the sender's down by three times
/// the amount, each receiver's up by the amount, no other wallet touched.
pub proof fn lemma_transfer_all_or_nothing(transfer: Transfer, ledger: LedgerView, now: int)
    ensures
        ({
            let (result, after) = transfer.outcome(ledger, now);
            ||| after == ledger
            ||| {
                &&& result is Ok
                &&& in_window(transfer.timestamp(), now)
                &&& after.dom() == ledger.dom()
                &&& forall|key: Seq<u8>| #[trigger]
                    ledger.dom().contains(key) ==> after[key].balance == ledger[key].balance
                        + transfer_delta(transfer, key)
                &&& forall|key: Seq<u8>| #[trigger]
                    ledger.dom().contains(key) && !transfer_touches(transfer, key) ==> after[key]
                        == ledger[key]
            }
        }),
{
    let (result, after) = transfer.outcome(ledger, now);
    if after != ledger {
        let hash = transfer.hash@;
        let amount = transfer.amount as int;
        let paid = ledger_debited(ledger, transfer.from@, transfer.total(), hash);
        let first = ledger_credited(paid, transfer.to@, amount, hash);
        let second = ledger_credited(first, transfer.to_second@, amount, hash);
        assert(after == ledger_credited(second, transfer.to_third@, amount, hash));
        assert(after.dom() =~= ledger.dom());
    }
}

/// With four different wallets, a transfer that changes the ledger changes
/// exactly these four balances: the sender's falls by three times the
/// amount and each receiver's rises by the amount.
pub proof fn lemma_transfer_four_balances(transfer: Transfer, ledger: LedgerView, now: int)
    requires
        transfer.from@ != transfer.to@,
        transfer.from@ != transfer.to_second@,
        transfer.from@ != transfer.to_third@,
        transfer.to@ != transfer.to_second@,
        transfer.to@ != transfer.to_third@,
        transfer.to_second@ != transfer.to_third@,
        transfer.outcome(ledger, now).1 != ledger,
    ensures
        ({
            let after = transfer.outcome(ledger, now).1;
            &&& after[transfer.from@].balance == ledger[transfer.from@].balance - 3
                * transfer.amount
            &&& after[transfer.to@].balance == ledger[transfer.to@].balance + transfer.amount
            &&& after[transfer.to_second@].balance == ledger[transfer.to_second@].balance
                + transfer.amount
            &&& after[transfer.to_third@].balance == ledger[transfer.to_third@].balance
                + transfer.amount
            &&& forall|key: Seq<u8>| #[trigger]
                ledger.dom().contains(key) && !transfer_touches(transfer, key) ==> after[key]
                    == ledger[key]
        }),
{
    lemma_transfer_all_or_nothing(transfer, ledger, now);
    let after = transfer.outcome(ledger, now).1;
    assert(ledger.dom().contains(transfer.from@));
    assert(ledger.dom().contains(transfer.to@));
    assert(ledger.dom().contains(transfer.to_second@));
    assert(ledger.dom().contains(transfer.to_third@));
}

/// Outside its window a transfer changes nothing. It still succeeds,
/// provided that the four wallets are registered and the sender holds the
/// amount; otherwise it is refused as it would be inside the window.
pub proof fn lemma_transfer_outside_window(transfer: Transfer, ledger: LedgerView, now: int)
    requires
        !in_window(transfer.timestamp(), now),
    ensures
        transfer.outcome(ledger, now).1 == ledger,
        transfer.outcome(ledger, now).0 is Ok <==> transfer.refusal(ledger) is None,
        transfer.refusal(ledger) matches Some(error) ==> transfer.outcome(ledger, now).0 == Err::<
            (),
            Error,
        >(error),
{
}

/// A transfer of more than the sender holds changes nothing, whatever the
/// time. Where the three receivers are registered, the refusal names the
/// insufficient amount.
pub proof fn lemma_transfer_beyond_balance(transfer: Transfer, ledger: LedgerView, now: int)
    requires
        ledger.dom().contains(transfer.from@),
        transfer.amount > ledger[transfer.from@].balance,
    ensures
        transfer.outcome(ledger, now).1 == ledger,
        transfer.outcome(ledger, now).0 is Err,
        ledger.dom().contains(transfer.to@) && ledger.dom().contains(transfer.to_second@)
            && ledger.dom().contains(transfer.to_third@) ==> transfer.outcome(ledger, now).0
            == Err::<(), Error>(Error::InsufficientCurrencyAmount),
{
}

/// The seed of a transfer has no effect: two transfers that differ in
/// nothing else do the same.
pub proof fn lemma_transfer_seed_has_no_effect(
    first: Transfer,
    second: Transfer,
    ledger: LedgerView,
    now: int,
)
    requires
        second == (Transfer { seed: second.seed, ..first }),
    ensures
        first.outcome(ledger, now) == second.outcome(ledger, now),
{
}

/// The seed of an issue has no effect: two issues that differ in nothing
/// else do the same.
pub proof fn lemma_issue_seed_has_no_effect(first: Issue, second: Issue, ledger: LedgerView)
    requires
        second == (Issue { seed: second.seed, ..first }),
    ensures
        first.outcome(ledger) == second.outcome(ledger),
{
}

} // verus!
