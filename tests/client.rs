use binance_core::client::{Client, GenericClient};
use binance_core::codec::{build_request, Param, ParamValue};
use binance_core::coin_margin::account::NewOrderRespType;
use binance_core::coin_margin::market::{funding_rate_params, FUNDING_RATE};
use binance_core::coin_margin::rest_model::{ContractStatus, ContractType};
use binance_core::coin_margin::userstream::USER_DATA_STREAM;
use binance_core::coin_margin::ws_model::{ExecutionType, WorkingType};
use binance_core::errors::Error;
use binance_core::request::{check_signable, Header, Verb};
use binance_core::response::{finish_body, interpret_status, ResponseStep};
use binance_core::signing::sign;

const HOST: &str = "https://dapi.binance.com";

fn names(headers: &[Header]) -> Vec<&str> {
    headers.iter().map(|h| h.name.as_str()).collect()
}

fn value_of<'a>(headers: &'a [Header], name: &str) -> Option<&'a str> {
    headers.iter().find(|h| h.name == name).map(|h| h.value.as_str())
}

fn keyed() -> Client {
    Client::new(Some("my-key".to_string()), Some("test-secret".to_string()), HOST.to_string(), Some(30))
}

#[test]
fn public_ping_succeeds_without_credentials() {
    let client = Client::new(None, None, HOST.to_string(), None);
    let req = client.prepare_get("/dapi/v1/ping", None);
    assert_eq!(req.verb, Verb::Get);
    assert_eq!(req.url, "https://dapi.binance.com/dapi/v1/ping");
    assert_eq!(names(&req.headers), vec!["user-agent"]);
    assert_eq!(value_of(&req.headers, "x-mbx-apikey"), None);
    assert_eq!(req.body, None);
    assert_eq!(interpret_status(200), ResponseStep::DecodeBody);
    let decoded: Result<serde_json::Value, String> = serde_json::from_str("{}").map_err(|e| e.to_string());
    let outcome = finish_body(decoded);
    assert_eq!(outcome, Ok(serde_json::Value::Object(serde_json::Map::new())));
}

#[test]
fn public_get_with_query() {
    let client = Client::new(None, None, HOST.to_string(), None);
    let req = client.prepare_get("/dapi/v1/depth", Some("symbol=BTCUSD_PERP&limit=5"));
    assert_eq!(req.url, "https://dapi.binance.com/dapi/v1/depth?symbol=BTCUSD_PERP&limit=5");
}

#[test]
fn constructor_keeps_configuration() {
    let client = keyed();
    assert_eq!(client.host(), HOST);
    assert_eq!(client.timeout(), Some(30));
    let generic = GenericClient::new(None, None, None);
    assert_eq!(generic.timeout(), None);
}

#[test]
fn signed_get_url_ends_with_signature() {
    let client = keyed();
    let request = "symbol=BTCUSDT&side=BUY&type=MARKET&quantity=1&recvWindow=5000&timestamp=1700000000000";
    let url = client.sign_request("/dapi/v1/order", request).unwrap();
    assert_eq!(
        url,
        format!(
            "https://dapi.binance.com/dapi/v1/order?{}&signature=7d231ee6ab6e59b85e141e097e5d08f7f24587991ffeb63369dd487bfaaf74de",
            request
        )
    );
    let req = client.prepare_signed(Verb::Get, "/dapi/v1/order", request).unwrap();
    assert_eq!(req.url, url);
    assert_eq!(names(&req.headers), vec!["user-agent", "x-mbx-apikey"]);
    assert_eq!(value_of(&req.headers, "x-mbx-apikey"), Some("my-key"));
    assert_eq!(value_of(&req.headers, "user-agent"), Some("binance-rs"));
}

#[test]
fn body_verbs_carry_form_content_type() {
    let client = keyed();
    for verb in [Verb::Post, Verb::Put] {
        let req = client.prepare_signed(verb, "/dapi/v1/order", "a=1").unwrap();
        assert_eq!(req.verb, verb);
        assert_eq!(value_of(&req.headers, "content-type"), Some("application/x-www-form-urlencoded"));
    }
    let req = client.prepare_signed(Verb::Delete, "/dapi/v1/order", "a=1").unwrap();
    assert_eq!(value_of(&req.headers, "content-type"), None);
    let hs = client.build_headers(true).unwrap();
    assert_eq!(names(&hs), vec!["user-agent", "x-mbx-apikey", "content-type"]);
    let hs = client.build_headers(false).unwrap();
    assert_eq!(names(&hs), vec!["user-agent", "x-mbx-apikey"]);
}

#[test]
fn signed_params_request_is_stamped_and_signed() {
    let client = keyed();
    let params = vec![
        Param { key: "symbol".to_string(), value: Some(ParamValue::Text("BTCUSDT".to_string())) },
        Param { key: "side".to_string(), value: Some(ParamValue::Text("BUY".to_string())) },
        Param { key: "type".to_string(), value: Some(ParamValue::Text("MARKET".to_string())) },
        Param { key: "price".to_string(), value: None },
        Param { key: "quantity".to_string(), value: Some(ParamValue::Unsigned(1)) },
    ];
    let req = client.prepare_signed_params(Verb::Post, "/dapi/v1/order", &params, 5000, 1700000000000).unwrap();
    assert_eq!(
        req.url,
        "https://dapi.binance.com/dapi/v1/order?symbol=BTCUSDT&side=BUY&type=MARKET&quantity=1&recvWindow=5000&timestamp=1700000000000&signature=7d231ee6ab6e59b85e141e097e5d08f7f24587991ffeb63369dd487bfaaf74de"
    );
}

#[test]
fn empty_secret_still_signs() {
    let client = Client::new(None, None, HOST.to_string(), None);
    let req = client.prepare_signed(Verb::Get, "/x", "").unwrap();
    assert_eq!(
        req.url,
        "https://dapi.binance.com/x?&signature=b613679a0814d9ec772f95d778c35fc5ff1697c493715653c6c712144292c5ad"
    );
    assert_eq!(value_of(&req.headers, "x-mbx-apikey"), Some(""));
}

#[test]
fn key_unfit_for_a_header_is_rejected() {
    let client = Client::new(Some("bad\nkey".to_string()), Some("s".to_string()), HOST.to_string(), None);
    assert_eq!(client.build_headers(false), Err(Error::InvalidHeaderValue));
    assert_eq!(client.prepare_signed(Verb::Get, "/x", "a=1"), Err(Error::InvalidHeaderValue));
    assert_eq!(client.prepare_post(USER_DATA_STREAM, None), Err(Error::InvalidHeaderValue));
    let client = Client::new(Some("tab\tkey".to_string()), None, HOST.to_string(), None);
    assert!(client.build_headers(false).is_ok());
    let client = Client::new(Some("del\u{7f}".to_string()), None, HOST.to_string(), None);
    assert_eq!(client.build_headers(false), Err(Error::InvalidHeaderValue));
}

#[test]
fn listen_key_lifecycle_requests() {
    let client = keyed();
    let start = client.prepare_post(USER_DATA_STREAM, None).unwrap();
    assert_eq!(start.verb, Verb::Post);
    assert_eq!(start.url, "https://dapi.binance.com/dapi/v1/listenKey");
    assert_eq!(names(&start.headers), vec!["user-agent", "x-mbx-apikey"]);
    let with_symbol = client.prepare_post("/dapi/v1/x", Some("BTCUSD_PERP")).unwrap();
    assert_eq!(with_symbol.url, "https://dapi.binance.com/dapi/v1/x?symbol=BTCUSD_PERP");
    let keep = client.prepare_listen_key(Verb::Put, USER_DATA_STREAM, "pqia91ma19a5s61cv6a81va65sdf19v8a65a1", None).unwrap();
    assert_eq!(keep.verb, Verb::Put);
    assert_eq!(keep.url, "https://dapi.binance.com/dapi/v1/listenKey?listenKey=pqia91ma19a5s61cv6a81va65sdf19v8a65a1");
    assert_eq!(names(&keep.headers), vec!["user-agent", "x-mbx-apikey"]);
    let close = client.prepare_listen_key(Verb::Delete, USER_DATA_STREAM, "k", Some("BTCUSD")).unwrap();
    assert_eq!(close.verb, Verb::Delete);
    assert_eq!(close.url, "https://dapi.binance.com/dapi/v1/listenKey?listenKey=k&symbol=BTCUSD");
}

#[test]
fn generic_client_addresses_any_host() {
    let client = GenericClient::new(Some("my-key".to_string()), Some("test-secret".to_string()), None);
    let a = client.prepare_get("https://a.example", "/p", None);
    let b = client.prepare_get("https://b.example", "/p", Some("x=1"));
    assert_eq!(a.url, "https://a.example/p");
    assert_eq!(b.url, "https://b.example/p?x=1");
    let signed = client.prepare_signed("https://a.example", Verb::Get, "/p", "x=1").unwrap();
    assert_eq!(signed.url, format!("https://a.example/p?x=1&signature={}", sign("test-secret", "x=1")));
    let url = client.sign_request("https://b.example", "/q", "y=2").unwrap();
    assert_eq!(url, format!("https://b.example/q?y=2&signature={}", sign("test-secret", "y=2")));
    let post = client.prepare_post("https://a.example", "/l", None).unwrap();
    assert_eq!(post.url, "https://a.example/l");
    let put = client.prepare_listen_key("https://a.example", Verb::Put, "/l", "k", None).unwrap();
    assert_eq!(put.url, "https://a.example/l?listenKey=k");
    let params = vec![Param { key: "symbol".to_string(), value: Some(ParamValue::Text("BTCUSD_PERP".to_string())) }];
    let signed = client.prepare_signed_params("https://a.example", Verb::Delete, "/o", &params, 1500, 2).unwrap();
    let query = "symbol=BTCUSD_PERP&recvWindow=1500&timestamp=2";
    assert_eq!(signed.url, format!("https://a.example/o?{}&signature={}", query, sign("test-secret", query)));
    assert_eq!(client.build_headers(false).unwrap().len(), 2);
}

#[test]
fn send_request_signs_the_form_body() {
    let client = GenericClient::new(Some("my-key".to_string()), Some("test-secret".to_string()), None);
    let params = vec![Param { key: "symbol".to_string(), value: None }];
    let req = client.prepare_send_request(HOST, "/dapi/v2/leverageBracket", Verb::Get, &params, 1500, 1).unwrap();
    assert_eq!(req.url, "https://dapi.binance.com/dapi/v2/leverageBracket");
    let query = "recvWindow=1500&timestamp=1";
    assert_eq!(req.body, Some(format!("{}&signature={}", query, sign("test-secret", query))));
    assert_eq!(value_of(&req.headers, "content-type"), Some("application/x-www-form-urlencoded"));
}

#[test]
fn funding_rate_query_leaves_out_absent_times() {
    let params = funding_rate_params("BTCUSD_PERP".to_string(), None, None, 10);
    assert_eq!(build_request(&params), "limit=10&symbol=BTCUSD_PERP");
    let params = funding_rate_params("BTCUSD_PERP".to_string(), Some(1), Some(2), 10);
    assert_eq!(build_request(&params), "startTime=1&endTime=2&limit=10&symbol=BTCUSD_PERP");
    assert_eq!(FUNDING_RATE, "/dapi/v1/fundingRate");
}

#[test]
fn enum_wire_names() {
    assert_eq!(NewOrderRespType::ACK.wire_name(), "ACK");
    assert_eq!(NewOrderRespType::RESULT.wire_name(), "RESULT");
    assert_eq!(ContractStatus::PendingTrading.wire_name(), "PENDING_TRADING");
    assert_eq!(ContractStatus::Delivered.wire_name(), "DELIVERED");
    assert_eq!(ContractType::NextQuarterDelivery.wire_name(), "NEXT_QUARTER DELIVERING");
    assert_eq!(ContractType::Empty.wire_name(), "");
    assert_eq!(ContractType::CurrentMonth.wire_name(), "CURRENT_MONTH");
    assert_eq!(ExecutionType::Amendment.wire_name(), "AMENDMENT");
    assert_eq!(WorkingType::MarkPrice.wire_name(), "MARK_PRICE");
    assert_eq!(WorkingType::ContractPrice.wire_name(), "CONTRACT_PRICE");
}

#[test]
fn ordinary_inputs_are_signable() {
    assert!(check_signable(""));
    assert!(check_signable("symbol=BTCUSDT&recvWindow=5000&timestamp=1"));
}
