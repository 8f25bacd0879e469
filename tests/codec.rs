use binance_core::codec::{build_request, build_signed_request, push_decimal, push_escaped, value_string, Param, ParamValue};

fn text(key: &str, value: &str) -> Param {
    Param { key: key.to_string(), value: Some(ParamValue::Text(value.to_string())) }
}

fn absent(key: &str) -> Param {
    Param { key: key.to_string(), value: None }
}

#[test]
fn query_keeps_input_order() {
    let params = vec![text("symbol", "BTCUSDT"), text("side", "BUY"), text("type", "MARKET"), text("quantity", "1")];
    assert_eq!(build_request(&params), "symbol=BTCUSDT&side=BUY&type=MARKET&quantity=1");
    let reversed = vec![text("b", "2"), text("a", "1")];
    assert_eq!(build_request(&reversed), "b=2&a=1");
}

#[test]
fn query_keeps_repeated_keys() {
    let params = vec![text("k", "1"), text("k", "2")];
    assert_eq!(build_request(&params), "k=1&k=2");
}

#[test]
fn absent_fields_are_omitted() {
    let params = vec![absent("startTime"), text("symbol", "X"), absent("price"), text("quantity", "1"), absent("end")];
    assert_eq!(build_request(&params), "symbol=X&quantity=1");
    assert_eq!(build_request(&vec![absent("a"), absent("b")]), "");
    assert_eq!(build_request(&vec![]), "");
}

#[test]
fn present_empty_text_is_kept() {
    assert_eq!(build_request(&vec![text("a", ""), text("b", "1")]), "a=&b=1");
}

#[test]
fn values_are_form_escaped() {
    assert_eq!(build_request(&vec![text("q", "a b&c=d")]), "q=a+b%26c%3Dd");
    assert_eq!(build_request(&vec![text("q", "é")]), "q=%C3%A9");
    assert_eq!(build_request(&vec![text("q", "A-z_0.9*~")]), "q=A-z_0.9*%7E");
    let mut out = String::from(">");
    push_escaped(&mut out, "100%");
    assert_eq!(out, ">100%25");
}

#[test]
fn numbers_render_in_plain_decimal() {
    assert_eq!(value_string(&ParamValue::Unsigned(0)), "0");
    assert_eq!(value_string(&ParamValue::Unsigned(1234567)), "1234567");
    assert_eq!(value_string(&ParamValue::Unsigned(u64::MAX)), "18446744073709551615");
    assert_eq!(value_string(&ParamValue::Signed(-42)), "-42");
    assert_eq!(value_string(&ParamValue::Signed(7)), "7");
    assert_eq!(value_string(&ParamValue::Signed(i64::MIN)), "-9223372036854775808");
    assert_eq!(value_string(&ParamValue::Flag(true)), "true");
    assert_eq!(value_string(&ParamValue::Flag(false)), "false");
    let mut out = String::from("n=");
    push_decimal(&mut out, 1700000000000);
    assert_eq!(out, "n=1700000000000");
}

#[test]
fn mixed_values_in_one_query() {
    let params = vec![
        text("symbol", "BTCUSD_PERP"),
        Param { key: "limit".to_string(), value: Some(ParamValue::Unsigned(10)) },
        Param { key: "offset".to_string(), value: Some(ParamValue::Signed(-3)) },
        Param { key: "reduceOnly".to_string(), value: Some(ParamValue::Flag(false)) },
    ];
    assert_eq!(build_request(&params), "symbol=BTCUSD_PERP&limit=10&offset=-3&reduceOnly=false");
}

#[test]
fn signed_query_appends_window_and_timestamp_last() {
    let params = vec![text("symbol", "BTCUSDT"), text("side", "BUY"), text("type", "MARKET"), text("quantity", "1")];
    assert_eq!(
        build_signed_request(&params, 5000, 1700000000000),
        "symbol=BTCUSDT&side=BUY&type=MARKET&quantity=1&recvWindow=5000&timestamp=1700000000000"
    );
    assert_eq!(build_signed_request(&vec![], 5000, 1), "recvWindow=5000&timestamp=1");
    assert_eq!(build_signed_request(&vec![absent("symbol")], 0, 0), "recvWindow=0&timestamp=0");
}
