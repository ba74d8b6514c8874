use cryptocurrency::error::Error;

#[test]
fn error_codes_are_fixed() {
    assert_eq!(Error::WalletAlreadyExists.code(), 0);
    assert_eq!(Error::SenderNotFound.code(), 1);
    assert_eq!(Error::ReceiverNotFound.code(), 2);
    assert_eq!(Error::InsufficientCurrencyAmount.code(), 3);
    assert_eq!(Error::BalanceOutOfRange.code(), 4);
}

#[test]
fn error_descriptions_are_fixed() {
    assert_eq!(Error::WalletAlreadyExists.description(), "Wallet already exists");
    assert_eq!(Error::SenderNotFound.description(), "Sender doesn't exist");
    assert_eq!(Error::ReceiverNotFound.description(), "Receiver doesn't exist");
    assert_eq!(
        Error::InsufficientCurrencyAmount.description(),
        "Insufficient currency amount"
    );
    assert_eq!(Error::BalanceOutOfRange.description(), "Balance out of range");
}

#[test]
fn error_from_code_inverts_code() {
    let all = vec![
        Error::WalletAlreadyExists,
        Error::SenderNotFound,
        Error::ReceiverNotFound,
        Error::InsufficientCurrencyAmount,
        Error::BalanceOutOfRange,
    ];
    for error in all {
        assert_eq!(Error::from_code(error.code()), Some(error));
    }
}

#[test]
fn error_from_code_refuses_unknown_codes() {
    assert_eq!(Error::from_code(5), None);
    assert_eq!(Error::from_code(255), None);
}
