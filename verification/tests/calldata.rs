use grantbot::calldata::{encode_transfer_calldata, USDC_SEPOLIA};

fn reference(to_address: &str, amount_micro: u64) -> String {
    let addr = to_address.trim_start_matches("0x");
    format!("0x{}{:0>64}{:064x}", "a9059cbb", addr, amount_micro)
}

#[test]
fn encodes_transfer_exactly() {
    let got = encode_transfer_calldata("0x742d35Cc6634C0532925a3b844Bc454e4438f44e", 10_000);
    assert_eq!(
        got,
        "0xa9059cbb000000000000000000000000742d35Cc6634C0532925a3b844Bc454e4438f44e0000000000000000000000000000000000000000000000000000000000002710"
    );
    assert_eq!(got.len(), 138);
}

#[test]
fn matches_format_on_edge_cases() {
    let addrs = [
        "",
        "0x",
        "0x0x12ab",
        "12ab",
        "x0x",
        USDC_SEPOLIA,
        "0x00000000000000000000000000000000000000000000000000000000000000000000000000ff",
        "0xé",
    ];
    let amounts = [0u64, 1, 15, 16, 255, 1_000_000, u64::MAX];
    for a in addrs.iter() {
        for n in amounts.iter() {
            assert_eq!(encode_transfer_calldata(a, *n), reference(a, *n));
        }
    }
}

#[test]
fn max_amount_word() {
    let got = encode_transfer_calldata("0x1", u64::MAX);
    assert!(got.ends_with("000000000000000000000000000000000000000000000000ffffffffffffffff"));
}

#[test]
fn calldata_amount_word_reads_back() {
    for n in [0u64, 1, 10_000, 5_000_000, u64::MAX].iter() {
        let c = encode_transfer_calldata("0xabc", *n);
        let word = &c[c.len() - 64..];
        assert_eq!(u128::from_str_radix(word, 16).unwrap(), *n as u128);
        assert_eq!(&c[..10], "0xa9059cbb");
        assert_eq!(&c[10..74], format!("{:0>64}", "abc"));
    }
}
