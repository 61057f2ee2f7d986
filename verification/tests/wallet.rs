use amico::wallet::{PhrasedMnemonic, Wallet, WalletError};
use bip39::{Language, Mnemonic, MnemonicType};

#[test]
fn test_new_wallet() {
    let wallet = Wallet::new().expect("Failed to create new wallet");

    // Check that the mnemonic phrase is valid
    let phrase = wallet.phrase();
    assert!(Mnemonic::validate(phrase, Language::English).is_ok());

    // Check that the mnemonic has 12 words
    assert_eq!(phrase.split_whitespace().count(), 12);

    // Check that the seed is generated correctly
    let seed = wallet.seed();
    assert!(!seed.is_empty());
}

#[test]
fn test_from_phrase() {
    // Valid mnemonic phrase
    let phrase = "abandon abandon abandon abandon abandon abandon abandon abandon abandon abandon abandon about";
    let wallet = Wallet::from_phrase(phrase).expect("Failed to create wallet from phrase");

    // Check that the phrase is stored correctly
    assert_eq!(wallet.phrase(), phrase);

    // Invalid mnemonic phrase
    let invalid_phrase = "invalid mnemonic phrase";
    assert!(Wallet::from_phrase(invalid_phrase).is_err());
}

#[test]
fn wallet_test_from_mnemonic() {
    let mnemonic = Mnemonic::new(MnemonicType::Words12, Language::English);
    let wallet =
        Wallet::from_mnemonic(PhrasedMnemonic::new(mnemonic.clone())).expect("Failed to create wallet from mnemonic");

    // Check that the mnemonic is stored correctly
    assert_eq!(wallet.phrase(), mnemonic.phrase());
}

#[test]
fn test_error_handling() {
    // Test mnemonic error
    let invalid_phrase = "invalid mnemonic phrase";
    let result = Wallet::from_phrase(invalid_phrase);
    assert!(matches!(result, Err(WalletError::MnemonicError(_))));
}

#[test]
fn same_phrase_gives_same_seed() {
    let phrase = "abandon abandon abandon abandon abandon abandon abandon abandon abandon abandon abandon about";
    let a = Wallet::from_phrase(phrase).unwrap();
    let b = Wallet::from_phrase(phrase).unwrap();
    assert_eq!(a.seed(), b.seed());
    assert_eq!(a.seed().len(), 64);
}
