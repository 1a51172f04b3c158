use grantbot::calldata::{encode_transfer_calldata, USDC_SEPOLIA};
use grantbot::relayer::{relay_outcome, relay_request, RelayError, DEFAULT_RELAY_URL};

#[test]
fn request_fields() {
    let r = relay_request("0xabc", 10_000, "0xdeadbeef");
    assert_eq!(r.delegation, "0xdeadbeef");
    assert_eq!(r.target, USDC_SEPOLIA);
    assert_eq!(r.calldata, encode_transfer_calldata("0xabc", 10_000));
    assert_eq!(r.value, "0");
    assert_eq!(DEFAULT_RELAY_URL, "https://relay.1shot.io/api/v1/relay");
}

#[test]
fn tx_hash_member_order() {
    assert_eq!(relay_outcome(true, br#"{"txHash":"0x1","tx_hash":"0x2","hash":"0x3"}"#), Ok("0x1".to_string()));
    assert_eq!(relay_outcome(true, br#"{"tx_hash":"0x2","hash":"0x3"}"#), Ok("0x2".to_string()));
    assert_eq!(relay_outcome(true, br#"{"hash":"0x3"}"#), Ok("0x3".to_string()));
    assert_eq!(relay_outcome(true, br#"{"txHash":7,"hash":"0x3"}"#), Ok("0x3".to_string()));
}

#[test]
fn relay_errors() {
    assert_eq!(relay_outcome(false, br#"{"txHash":"0x1"}"#), Err(RelayError::Rejected));
    assert_eq!(relay_outcome(true, b"not json"), Err(RelayError::InvalidJson));
    assert_eq!(relay_outcome(true, br#"{"status":"queued"}"#), Err(RelayError::MissingTxHash));
}
