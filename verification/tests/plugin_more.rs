use amico::web3::{BalanceSensorResult, SolanaWalletError, TradeError};

#[test]
fn web3_error_texts() {
    assert_eq!(TradeError::ClientError.to_string(), "Client error");
    assert_eq!(
        SolanaWalletError::KeypairError("bad seed".to_string()).to_string(),
        "Solana keypair error: bad seed"
    );
    assert_eq!(BalanceSensorResult { lamports: 5 }.lamports, 5);
}
