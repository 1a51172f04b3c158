use grantbot::signature::verify_webhook_signature;
use hmac::{Hmac, Mac};
use sha2::Sha256;

type HmacSha256 = Hmac<Sha256>;

fn sign(secret: &str, payload: &[u8]) -> String {
    let mut mac = HmacSha256::new_from_slice(secret.as_bytes()).unwrap();
    mac.update(payload);
    format!("sha256={}", hex::encode(mac.finalize().into_bytes()))
}

const SECRET: &str = "my-test-secret";
const PAYLOAD: &[u8] = b"{\"action\":\"closed\",\"pull_request\":{\"merged\":true}}";

#[test]
fn valid_signature_passes() {
    let sig = sign(SECRET, PAYLOAD);
    assert!(verify_webhook_signature(SECRET, PAYLOAD, &sig));
}

#[test]
fn mutated_payload_rejected() {
    let sig = sign(SECRET, PAYLOAD);
    let mutated = b"{\"action\":\"closed\",\"pull_request\":{\"merged\":false}}";
    assert!(!verify_webhook_signature(SECRET, mutated, &sig));
}

#[test]
fn wrong_secret_rejected() {
    let sig = sign(SECRET, PAYLOAD);
    assert!(!verify_webhook_signature("wrong-secret", PAYLOAD, &sig));
}

#[test]
fn signature_without_prefix_rejected() {
    let sig = sign(SECRET, PAYLOAD);
    let bare = sig.strip_prefix("sha256=").unwrap();
    assert!(!verify_webhook_signature(SECRET, PAYLOAD, bare));
    assert!(!verify_webhook_signature(SECRET, PAYLOAD, &format!("sha1={}", bare)));
}

#[test]
fn upper_case_hex_accepted() {
    let sig = sign(SECRET, PAYLOAD);
    let upper = format!("sha256={}", sig["sha256=".len()..].to_uppercase());
    assert!(verify_webhook_signature(SECRET, PAYLOAD, &upper));
}

#[test]
fn malformed_hex_rejected() {
    let sig = sign(SECRET, PAYLOAD);
    // odd length
    assert!(!verify_webhook_signature(SECRET, PAYLOAD, &sig[..sig.len() - 1]));
    // not a hex digit
    let bad = format!("{}zz", &sig[..sig.len() - 2]);
    assert!(!verify_webhook_signature(SECRET, PAYLOAD, &bad));
    // empty tag
    assert!(!verify_webhook_signature(SECRET, PAYLOAD, "sha256="));
    assert!(!verify_webhook_signature(SECRET, PAYLOAD, ""));
}

#[test]
fn truncated_tag_rejected() {
    let sig = sign(SECRET, PAYLOAD);
    assert!(!verify_webhook_signature(SECRET, PAYLOAD, &sig[..sig.len() - 2]));
}

#[test]
fn known_hmac_vector() {
    // RFC 4231, test case 2.
    let sig = "sha256=5bdcc146bf60754e6a042426089575c75a003f089d2739839dec58b964ec3843";
    assert!(verify_webhook_signature("Jefe", b"what do ya want for nothing?", sig));
}
