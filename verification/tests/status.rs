use grantbot::status::PrStatus;

#[test]
fn status_texts() {
    assert_eq!(PrStatus::Pending.as_str(), "pending");
    assert_eq!(PrStatus::Approved.as_str(), "approved");
    assert_eq!(PrStatus::Rejected.as_str(), "rejected");
    assert_eq!(PrStatus::Paid.as_str(), "paid");
    assert_eq!(PrStatus::Failed.as_str(), "failed");
}

#[test]
fn status_texts_distinct() {
    let all = [PrStatus::Pending, PrStatus::Approved, PrStatus::Rejected, PrStatus::Paid, PrStatus::Failed];
    for (i, a) in all.iter().enumerate() {
        for (j, b) in all.iter().enumerate() {
            assert_eq!(i == j, a.as_str() == b.as_str());
        }
    }
}
