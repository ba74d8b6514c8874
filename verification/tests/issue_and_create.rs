use cryptocurrency::error::Error;
use cryptocurrency::keys;
use cryptocurrency::keys::PublicKey;
use cryptocurrency::ledger::Ledger;
use cryptocurrency::transactions::{CreateWallet, Issue};
use cryptocurrency::wallet::Wallet;

fn ik(n: u8) -> PublicKey {
    PublicKey::new([n; 32])
}

fn ih(n: u8) -> keys::Hash {
    keys::Hash::new([n; 32])
}

#[test]
fn create_wallet_registers_an_empty_wallet() {
    let mut ledger = Ledger::new();
    let result = CreateWallet::new(&ik(1), "alice", &ih(21)).execute(&mut ledger);
    assert_eq!(result, Ok(()));
    let wallet = ledger.wallet(&ik(1)).unwrap();
    assert_eq!(wallet, &Wallet::new(&ik(1), "alice", 0, &ih(21)));
}

#[test]
fn create_wallet_twice_is_refused_and_changes_nothing() {
    let mut ledger = Ledger::new();
    assert_eq!(CreateWallet::new(&ik(1), "alice", &ih(21)).execute(&mut ledger), Ok(()));
    assert_eq!(Issue::new(&ik(1), 5, 0, 0, 0, &ih(22)).execute(&mut ledger), Ok(()));
    let result = CreateWallet::new(&ik(1), "mallory", &ih(23)).execute(&mut ledger);
    assert_eq!(result, Err(Error::WalletAlreadyExists));
    let wallet = ledger.wallet(&ik(1)).unwrap();
    assert_eq!(wallet, &Wallet::new(&ik(1), "alice", 5, &ih(22)));
    // The very same operation again is refused too.
    let again = CreateWallet::new(&ik(1), "alice", &ih(21));
    assert_eq!(again.execute(&mut ledger), Err(Error::WalletAlreadyExists));
    assert_eq!(ledger.wallet(&ik(1)).unwrap().balance(), 5);
}

#[test]
fn create_wallet_leaves_other_wallets_alone() {
    let mut ledger = Ledger::new();
    ledger.put(Wallet::new(&ik(1), "alice", 100, &ih(1)));
    assert_eq!(CreateWallet::new(&ik(2), "bob", &ih(2)).execute(&mut ledger), Ok(()));
    assert_eq!(ledger.wallet(&ik(1)).unwrap(), &Wallet::new(&ik(1), "alice", 100, &ih(1)));
    assert_eq!(ledger.wallet(&ik(2)).unwrap(), &Wallet::new(&ik(2), "bob", 0, &ih(2)));
}

#[test]
fn create_wallet_accessors_return_the_fields() {
    let creation = CreateWallet::new(&ik(3), "carol", &ih(4));
    assert_eq!(creation.pub_key(), &ik(3));
    assert_eq!(creation.name(), "carol");
    assert_eq!(creation.hash(), &ih(4));
    assert_eq!(creation.clone(), creation);
}

#[test]
fn issue_credits_the_sum_of_three_amounts() {
    let mut ledger = Ledger::new();
    ledger.put(Wallet::new(&ik(1), "alice", 100, &ih(1)));
    assert_eq!(Issue::new(&ik(1), 1, 20, 300, 0, &ih(2)).execute(&mut ledger), Ok(()));
    assert_eq!(ledger.wallet(&ik(1)).unwrap(), &Wallet::new(&ik(1), "alice", 421, &ih(2)));
}

#[test]
fn issue_to_unknown_key_is_refused_and_changes_nothing() {
    let mut ledger = Ledger::new();
    ledger.put(Wallet::new(&ik(1), "alice", 100, &ih(1)));
    let result = Issue::new(&ik(2), 50, 0, 0, 0, &ih(2)).execute(&mut ledger);
    assert_eq!(result, Err(Error::ReceiverNotFound));
    assert!(ledger.wallet(&ik(2)).is_none());
    assert_eq!(ledger.wallet(&ik(1)).unwrap(), &Wallet::new(&ik(1), "alice", 100, &ih(1)));
}

#[test]
fn issue_to_unknown_key_is_refused_before_the_sum_is_formed() {
    let mut ledger = Ledger::new();
    let result = Issue::new(&ik(2), u64::MAX, u64::MAX, 1, 0, &ih(2)).execute(&mut ledger);
    assert_eq!(result, Err(Error::ReceiverNotFound));
}

#[test]
fn issue_whose_sum_does_not_fit() {
    for (a, b, c) in vec![
        (u64::MAX, 1, 0),
        (u64::MAX, 0, 1),
        (0, u64::MAX, 1),
        (1, 1, u64::MAX - 1),
        (u64::MAX, u64::MAX, u64::MAX),
    ] {
        let mut ledger = Ledger::new();
        ledger.put(Wallet::new(&ik(1), "alice", 0, &ih(1)));
        let result = Issue::new(&ik(1), a, b, c, 0, &ih(2)).execute(&mut ledger);
        assert_eq!(result, Err(Error::BalanceOutOfRange));
        assert_eq!(ledger.wallet(&ik(1)).unwrap(), &Wallet::new(&ik(1), "alice", 0, &ih(1)));
    }
}

#[test]
fn issue_that_would_take_the_balance_past_the_maximum() {
    let mut ledger = Ledger::new();
    ledger.put(Wallet::new(&ik(1), "alice", u64::MAX - 5, &ih(1)));
    let result = Issue::new(&ik(1), 2, 2, 2, 0, &ih(2)).execute(&mut ledger);
    assert_eq!(result, Err(Error::BalanceOutOfRange));
    assert_eq!(ledger.wallet(&ik(1)).unwrap().balance(), u64::MAX - 5);
    assert_eq!(ledger.wallet(&ik(1)).unwrap().history_hash(), &ih(1));
    let result = Issue::new(&ik(1), 2, 2, 1, 0, &ih(3)).execute(&mut ledger);
    assert_eq!(result, Ok(()));
    assert_eq!(ledger.wallet(&ik(1)).unwrap().balance(), u64::MAX);
}

#[test]
fn issue_of_nothing_still_records_its_hash() {
    let mut ledger = Ledger::new();
    ledger.put(Wallet::new(&ik(1), "alice", 7, &ih(1)));
    assert_eq!(Issue::new(&ik(1), 0, 0, 0, 0, &ih(2)).execute(&mut ledger), Ok(()));
    assert_eq!(ledger.wallet(&ik(1)).unwrap(), &Wallet::new(&ik(1), "alice", 7, &ih(2)));
}

#[test]
fn issue_accessors_return_the_fields() {
    let issue = Issue::new(&ik(3), 1, 2, 3, 4, &ih(5));
    assert_eq!(issue.pub_key(), &ik(3));
    assert_eq!(issue.amount(), 1);
    assert_eq!(issue.amount_second(), 2);
    assert_eq!(issue.amount_third(), 3);
    assert_eq!(issue.seed(), 4);
    assert_eq!(issue.hash(), &ih(5));
}
