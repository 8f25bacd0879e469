use binance_core::signing::sign;

const MESSAGE: &str = "symbol=BTCUSDT&side=BUY&type=MARKET&quantity=1&recvWindow=5000&timestamp=1700000000000";

#[test]
fn golden_signature() {
    assert_eq!(sign("test-secret", MESSAGE), "7d231ee6ab6e59b85e141e097e5d08f7f24587991ffeb63369dd487bfaaf74de");
}

#[test]
fn empty_key_and_message_sign() {
    assert_eq!(sign("", ""), "b613679a0814d9ec772f95d778c35fc5ff1697c493715653c6c712144292c5ad");
}

#[test]
fn signing_is_deterministic() {
    let a = sign("test-secret", MESSAGE);
    let b = sign("test-secret", MESSAGE);
    assert_eq!(a, b);
    assert_eq!(a.len(), 64);
    assert!(a.chars().all(|c| c.is_ascii_digit() || ('a'..='f').contains(&c)));
}

#[test]
fn one_byte_changes_the_signature() {
    let base = sign("test-secret", MESSAGE);
    let changed_message = MESSAGE.replace("quantity=1", "quantity=2");
    assert_ne!(sign("test-secret", &changed_message), base);
    assert_ne!(sign("test-secreu", MESSAGE), base);
    assert_ne!(sign("test-secret", &MESSAGE[1..]), base);
}
