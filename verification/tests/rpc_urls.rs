use juno_scan::rpc::CosmosRPC;

#[test]
fn blockchain_url_has_both_heights() {
    let rpc = CosmosRPC::Blockchain { min_height: 5372118, max_height: 5372138 };
    assert_eq!(
        rpc.url("https://rpc-juno.itastakers.com"),
        "https://rpc-juno.itastakers.com/blockchain?minHeight=5372118&maxHeight=5372138"
    );
}

#[test]
fn block_url_has_height() {
    let rpc = CosmosRPC::Block { height: 42 };
    assert_eq!(rpc.url("http://node"), "http://node/block?height=42");
}

#[test]
fn status_url() {
    assert_eq!(CosmosRPC::Status.url("http://node"), "http://node/status");
}

#[test]
fn url_writes_zero_and_large_heights() {
    let rpc = CosmosRPC::Blockchain { min_height: 0, max_height: u64::MAX };
    assert_eq!(
        rpc.url(""),
        "/blockchain?minHeight=0&maxHeight=18446744073709551615"
    );
    assert_eq!(CosmosRPC::Block { height: 10 }.url("x"), "x/block?height=10");
    assert_eq!(CosmosRPC::Block { height: 9 }.url("x"), "x/block?height=9");
}

#[test]
fn decimal_matches_display() {
    for n in [0u64, 1, 9, 10, 99, 100, 101, 5372138, 1_000_000_007, u64::MAX] {
        let mut s = String::from("h=");
        juno_scan::decimal::push_decimal(&mut s, n);
        assert_eq!(s, format!("h={}", n));
    }
}

#[test]
fn block_urls_differ_for_different_heights() {
    let a = CosmosRPC::Block { height: 12 }.url("e");
    let b = CosmosRPC::Block { height: 120 }.url("e");
    let c = CosmosRPC::Block { height: 21 }.url("e");
    assert_ne!(a, b);
    assert_ne!(a, c);
    assert_ne!(b, c);
}
