use acme_proxy_config::text::{concat2, u64_to_decimal};

#[test]
fn decimal_rendering() {
    assert_eq!(u64_to_decimal(0), "0");
    assert_eq!(u64_to_decimal(7), "7");
    assert_eq!(u64_to_decimal(10), "10");
    assert_eq!(u64_to_decimal(90210), "90210");
    assert_eq!(u64_to_decimal(u64::MAX), "18446744073709551615");
}

#[test]
fn concatenation() {
    assert_eq!(concat2("ID-", "12"), "ID-12");
    assert_eq!(concat2("", ""), "");
    assert_eq!(concat2("a", ""), "a");
}
