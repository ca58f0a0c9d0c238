use frame_rs::error::ClientError;
use frame_rs::session::accounts_outcome;
use frame_rs::session::chain_id_outcome;
use frame_rs::session::send_outcome;
use frame_rs::session::switch_outcome;
use frame_rs::types::Address;
use frame_rs::types::TxHash;
use frame_rs::uint::Uint256;

#[test]
fn success_statuses_accept_the_switch() {
    assert!(switch_outcome(200, String::new()).is_ok());
    assert!(switch_outcome(204, String::new()).is_ok());
    assert!(switch_outcome(299, String::new()).is_ok());
}

#[test]
fn other_statuses_refuse_with_the_body() {
    for status in [199u16, 300, 404, 500] {
        let err = switch_outcome(status, String::from("chain not configured")).unwrap_err();
        match &err {
            ClientError::NetworkSwitch(body) => assert_eq!(body, "chain not configured"),
            other => panic!("expected NetworkSwitch, got {:?}", other),
        }
        assert_eq!(
            err.message().as_str(),
            "Failed to switch network: chain not configured"
        );
    }
}

#[test]
fn present_receipt_yields_its_hash() {
    let hash = TxHash::new([9u8; 32]);
    let out = send_outcome(Some(hash)).unwrap();
    assert_eq!(out, hash);
    assert_eq!(out.bytes.len(), 32);
}

#[test]
fn absent_receipt_is_the_fixed_failure() {
    let err = send_outcome(None).unwrap_err();
    assert!(matches!(err, ClientError::TransactionFailed));
    assert_eq!(err.message().as_str(), "Tx failed to send");
}

#[test]
fn chain_id_query_passes_through() {
    let got = chain_id_outcome(Ok(Uint256::from_u64(42161))).unwrap();
    assert_eq!(got, Uint256::from_u64(42161));
    let err = chain_id_outcome(Err(String::from("connection refused"))).unwrap_err();
    match &err {
        ClientError::Transport(detail) => assert_eq!(detail, "connection refused"),
        other => panic!("expected Transport, got {:?}", other),
    }
    assert_eq!(err.message().as_str(), "connection refused");
}

#[test]
fn accounts_query_passes_through() {
    let listed = vec![Address::new([1u8; 20]), Address::new([2u8; 20])];
    let got = accounts_outcome(Ok(listed.clone())).unwrap();
    assert_eq!(got, listed);
    let err = accounts_outcome(Err(String::from("timed out"))).unwrap_err();
    assert!(matches!(err, ClientError::Transport(_)));
}
