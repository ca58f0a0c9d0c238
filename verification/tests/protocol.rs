use frame_rs::error::ClientError;
use frame_rs::session::send_outcome;
use frame_rs::session::Session;
use frame_rs::types::Address;
use frame_rs::types::TxHash;
use frame_rs::uint::Uint256;
use frame_rs::wallet::Account;
use frame_rs::wallet::ModelWallet;

#[test]
fn test_switch_network() {
    let mut wallet = ModelWallet::boot(Uint256::from_u64(1), TxHash::new([0u8; 32]));
    assert_eq!(wallet.current_chain_id(), Uint256::from_u64(1));
    let next_chain_id = Uint256::from_u64(42161);
    wallet.switch_network(&next_chain_id);
    assert_eq!(wallet.current_chain_id(), next_chain_id);
}

#[test]
fn repeated_switch_is_idempotent() {
    let mut wallet = ModelWallet::boot(Uint256::from_u64(1), TxHash::new([0u8; 32]));
    let target = Uint256::from_u64(42161);
    wallet.switch_network(&target);
    wallet.switch_network(&target);
    assert_eq!(wallet.current_chain_id(), target);
}

#[test]
fn no_unlocked_accounts_is_an_empty_answer() {
    let wallet = ModelWallet::boot(Uint256::from_u64(1), TxHash::new([0u8; 32]));
    let addrs = wallet.accounts();
    assert!(addrs.is_empty());
}

#[test]
fn accounts_come_back_in_wallet_order() {
    let mut wallet = ModelWallet::boot(Uint256::from_u64(1), TxHash::new([0u8; 32]));
    let first = Address::new([1u8; 20]);
    let second = Address::new([2u8; 20]);
    wallet.unlock(Account { addr: first, balance: Uint256::zero() });
    wallet.unlock(Account { addr: second, balance: Uint256::from_u64(10) });
    assert_eq!(wallet.accounts(), vec![first, second]);
}

#[test]
fn insufficient_balance_never_yields_a_hash() {
    let mut wallet = ModelWallet::boot(Uint256::from_u64(1), TxHash::new([3u8; 32]));
    let sender = Address::new([0xaa; 20]);
    let recipient = Address::new([0xbb; 20]);
    wallet.unlock(Account { addr: sender, balance: Uint256::from_u64(9) });
    let receipt = wallet.submit_transfer(&sender, &recipient, &Uint256::from_u64(10));
    assert!(receipt.is_none());
    let err = send_outcome(receipt).unwrap_err();
    assert!(matches!(err, ClientError::TransactionFailed));
}

#[test]
fn scenario_session_lifecycle() {
    let session = Session::open(None);
    let one = Uint256::from_u64(1);

    // Opening with chain id 1 issues a switch request for 0x1.
    let (url, body) = session.switch_request(&one);
    assert_eq!(url.as_str(), "http://127.0.0.1:1248");
    assert_eq!(
        body.as_str(),
        "{\"id\":\"1\",\"jsonrpc\":\"2.0\",\"method\":\"wallet_switchEthereumChain\",\"params\":[{\"chainId\":\"0x1\"}]}"
    );
    let mined = TxHash::new([7u8; 32]);
    let mut wallet = ModelWallet::boot(Uint256::from_u64(5), mined);
    wallet.switch_network(&one);
    assert_eq!(wallet.current_chain_id(), one);

    // Switch to 42161 and query again.
    let rollup = Uint256::from_u64(42161);
    wallet.switch_network(&rollup);
    assert_eq!(wallet.current_chain_id(), rollup);

    // Accounts: a non-error sequence, possibly empty.
    assert!(wallet.accounts().is_empty());

    // A funded sender moves 10^18 of the smallest unit and gets a
    // 32-byte hash; an unfunded sender gets the fixed failure.
    let addr_a = Address::new([0xaa; 20]);
    let addr_b = Address::new([0xbb; 20]);
    let amount = Uint256::from_u64(1_000_000_000_000_000_000);
    wallet.unlock(Account { addr: addr_a, balance: Uint256::from_words(0, 1, 0, 0) });
    let hash = send_outcome(wallet.submit_transfer(&addr_a, &addr_b, &amount)).unwrap();
    assert_eq!(hash, mined);
    assert_eq!(hash.bytes.len(), 32);

    let addr_c = Address::new([0xcc; 20]);
    let failed = send_outcome(wallet.submit_transfer(&addr_c, &addr_b, &amount));
    assert!(matches!(failed, Err(ClientError::TransactionFailed)));
}

#[test]
fn exact_balance_is_sufficient() {
    let mut wallet = ModelWallet::boot(Uint256::from_u64(1), TxHash::new([1u8; 32]));
    let sender = Address::new([5u8; 20]);
    wallet.unlock(Account { addr: sender, balance: Uint256::from_u64(10) });
    let receipt = wallet.submit_transfer(&sender, &Address::new([6u8; 20]), &Uint256::from_u64(10));
    assert!(receipt.is_some());
}
