use grantbot::secret::{generate_webhook_secret, WEBHOOK_SECRET_LEN};

#[test]
fn secret_shape() {
    for _ in 0..20 {
        let s = generate_webhook_secret();
        assert_eq!(s.chars().count(), WEBHOOK_SECRET_LEN);
        assert!(s.chars().all(|c| c.is_ascii_alphanumeric()));
    }
    assert_eq!(WEBHOOK_SECRET_LEN, 32);
}
