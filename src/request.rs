use vstd::prelude::*;
use vstd::string::StringExecFns;
use vstd::utf8::encode_utf8;

use crate::codec::{
    build_signed_request, canonical_query, decimal, form_escape, join2, push_escaped, signed_query, Param,
};
use crate::errors::Error;
use crate::signing::{hmac_sha256, lemma_lower_hex_digits, sign, signable, signature_of, MAX_SIGNED_BYTES};
use crate::text::push_char;

verus! {

/// Name of the header that identifies the client.
pub const USER_AGENT: &'static str = "user-agent";

/// The fixed client identifier sent as user agent.
pub const USER_AGENT_VALUE: &'static str = "binance-rs";

/// Name of the header that carries the API key.
pub const API_KEY_HEADER: &'static str = "x-mbx-apikey";

/// Name of the content type header.
pub const CONTENT_TYPE: &'static str = "content-type";

/// Content type of a form-encoded body.
pub const FORM_CONTENT_TYPE: &'static str = "application/x-www-form-urlencoded";

/// HTTP method of a request.
#[derive(Debug, Clone, Copy, PartialEq, Eq, Structural)]
pub enum Verb {
    Get,
    Post,
    Put,
    Delete,
}

/// Verbs whose requests carry a body, and so a content type.
pub open spec fn carries_body(v: Verb) -> bool {
    v is Post || v is Put
}

/// One HTTP header; names are lower case.
#[derive(Debug, Clone, PartialEq, Eq)]
pub struct Header {
    pub name: String,
    pub value: String,
}

/// Everything needed to send one call: method, full URL, headers and an
/// optional form-encoded body.
#[derive(Debug, Clone, PartialEq, Eq)]
pub struct PreparedRequest {
    pub verb: Verb,
    pub url: String,
    pub headers: Vec<Header>,
    pub body: Option<String>,
}

pub open spec fn header_pairs(hs: Seq<Header>) -> Seq<(Seq<char>, Seq<char>)> {
    hs.map_values(|h: Header| (h.name@, h.value@))
}

/// Headers of a public call: the user agent alone.
pub open spec fn public_headers() -> Seq<(Seq<char>, Seq<char>)> {
    seq![(USER_AGENT@, USER_AGENT_VALUE@)]
}

/// Headers of an API-key call: user agent, API key, and the form content
/// type when asked for.
pub open spec fn key_headers(api_key: Seq<char>, content_type: bool) -> Seq<(Seq<char>, Seq<char>)> {
    let base = seq![(USER_AGENT@, USER_AGENT_VALUE@), (API_KEY_HEADER@, api_key)];
    if content_type {
        base.push((CONTENT_TYPE@, FORM_CONTENT_TYPE@))
    } else {
        base
    }
}

/// Bytes that a header value may hold: a tab, or anything from 32 up but 127.
pub open spec fn header_byte_ok(b: u8) -> bool {
    (b >= 32 && b != 127) || b == 9
}

pub open spec fn valid_header_value(s: Seq<char>) -> bool {
    forall|i: int| 0 <= i < encode_utf8(s).len() ==> header_byte_ok(#[trigger] encode_utf8(s)[i])
}

/// Relies on reqwest's `header::HeaderValue::from_str` (the http crate's):
/// it accepts a text exactly when each of its UTF-8 bytes is a tab, or at
/// least 32 and not 127.
#[verifier::external_body]
fn header_value_accepted(s: &str) -> (r: bool)
    ensures
        r == valid_header_value(s@),
{
    reqwest::header::HeaderValue::from_str(s).is_ok()
}

/// Relies on boolinator's `Boolinator::as_option` for `bool`: `Some(())`
/// exactly when the flag is set.
#[verifier::external_body]
fn flag_option(flag: bool) -> (r: Option<()>)
    ensures
        r == (if flag {
            Some(())
        } else {
            None::<()>
        }),
{
    boolinator::Boolinator::as_option(flag)
}

fn header(name: &str, value: &str) -> (h: Header)
    ensures
        h.name@ == name@,
        h.value@ == value@,
{
    Header { name: String::from_str(name), value: String::from_str(value) }
}

/// The headers of a public call.
pub fn public_header_list() -> (r: Vec<Header>)
    ensures
        header_pairs(r@) == public_headers(),
{
    let mut hs: Vec<Header> = Vec::new();
    hs.push(header(USER_AGENT, USER_AGENT_VALUE));
    assert(header_pairs(hs@) =~= public_headers());
    hs
}

/// The headers of an API-key call; fails when the key cannot stand in a
/// header.
pub fn build_headers(api_key: &str, content_type: bool) -> (r: Result<Vec<Header>, Error>)
    ensures
        r is Ok <==> valid_header_value(api_key@),
        r matches Ok(hs) ==> header_pairs(hs@) == key_headers(api_key@, content_type),
        r matches Err(e) ==> e == Error::InvalidHeaderValue,
{
    if !header_value_accepted(api_key) {
        return Err(Error::InvalidHeaderValue);
    }
    let mut hs: Vec<Header> = Vec::new();
    hs.push(header(USER_AGENT, USER_AGENT_VALUE));
    hs.push(header(API_KEY_HEADER, api_key));
    match flag_option(content_type) {
        Some(()) => hs.push(header(CONTENT_TYPE, FORM_CONTENT_TYPE)),
        None => {},
    }
    assert(header_pairs(hs@) =~= key_headers(api_key@, content_type));
    Ok(hs)
}

pub open spec fn opt_view(o: Option<&str>) -> Option<Seq<char>> {
    match o {
        Some(s) => Some(s@),
        None => None,
    }
}

/// `<host><endpoint>?<query>&signature=<hex>`.
pub open spec fn signed_url(host: Seq<char>, endpoint: Seq<char>, query: Seq<char>, secret: Seq<char>) -> Seq<char> {
    host + endpoint + seq!['?'] + query + "&signature="@ + signature_of(secret, query)
}

/// In the URL of a signed call, `recvWindow` and `timestamp` come after the
/// parameters, and the signature comes last: it is a run of hexadecimal
/// digits with no `&` after `&signature=`.
pub proof fn lemma_signature_is_last_parameter(
    host: Seq<char>,
    endpoint: Seq<char>,
    params: Seq<Param>,
    recv_window: u64,
    timestamp: u64,
    secret: Seq<char>,
)
    ensures
        ({
            let q = signed_query(params, recv_window, timestamp);
            let sig = signature_of(secret, q);
            &&& signed_url(host, endpoint, q, secret) == host + endpoint + seq!['?'] + join2(
                canonical_query(params),
                "recvWindow="@ + decimal(recv_window as nat) + "&timestamp="@ + decimal(timestamp as nat),
            ) + "&signature="@ + sig
            &&& forall|i: int| 0 <= i < sig.len() ==> #[trigger] sig[i] != '&'
        }),
{
    let q = signed_query(params, recv_window, timestamp);
    lemma_lower_hex_digits(hmac_sha256(encode_utf8(secret), encode_utf8(q)));
}

/// `<host><endpoint>`, with `?<query>` when there is a query.
pub open spec fn plain_url(host: Seq<char>, endpoint: Seq<char>, query: Option<Seq<char>>) -> Seq<char> {
    match query {
        Some(q) => host + endpoint + seq!['?'] + q,
        None => host + endpoint,
    }
}

/// The query of a call that names a symbol or nothing.
pub open spec fn symbol_query(symbol: Option<Seq<char>>) -> Option<Seq<char>> {
    match symbol {
        Some(s) => Some("symbol="@ + form_escape(s)),
        None => None,
    }
}

/// The query of a listen-key call: the key, then the symbol if any.
pub open spec fn listen_key_query(listen_key: Seq<char>, symbol: Option<Seq<char>>) -> Seq<char> {
    "listenKey="@ + form_escape(listen_key) + match symbol {
        Some(s) => "&symbol="@ + form_escape(s),
        None => seq![],
    }
}

/// Whether both texts can be given to the signer.
pub fn check_signable(s: &str) -> (r: bool)
    ensures
        r == signable(s@),
{
    (s.as_bytes().len() as u64) < MAX_SIGNED_BYTES
}

/// Appends a signature for `request` to `<host><endpoint>?<request>`.
/// Fails with an encoding error when the secret or the request is too long
/// to sign.
pub fn sign_url(secret: &str, host: &str, endpoint: &str, request: &str) -> (r: Result<String, Error>)
    ensures
        r is Ok <==> signable(secret@) && signable(request@),
        r matches Ok(url) ==> url@ == signed_url(host@, endpoint@, request@, secret@),
        r matches Err(e) ==> e is EncodingError,
{
    if !check_signable(secret) || !check_signable(request) {
        return Err(Error::EncodingError(String::from_str("input too long to sign")));
    }
    let signature = sign(secret, request);
    let mut url = String::from_str(host);
    url.append(endpoint);
    push_char(&mut url, '?');
    url.append(request);
    url.append("&signature=");
    url.append(signature.as_str());
    assert(url@ =~= signed_url(host@, endpoint@, request@, secret@));
    Ok(url)
}

/// `<host><endpoint>`, with `?<query>` when there is a query.
pub fn plain_url_of(host: &str, endpoint: &str, query: Option<&str>) -> (r: String)
    ensures
        r@ == plain_url(host@, endpoint@, opt_view(query)),
{
    let mut url = String::from_str(host);
    url.append(endpoint);
    match query {
        Some(q) => {
            push_char(&mut url, '?');
            url.append(q);
            assert(url@ =~= host@ + endpoint@ + seq!['?'] + q@);
        },
        None => {},
    }
    url
}

/// A signed call: the request is signed and the signature appended to the
/// URL; the headers carry the API key, and the form content type when the
/// verb carries a body.
pub fn signed_request(
    api_key: &str,
    secret: &str,
    host: &str,
    verb: Verb,
    endpoint: &str,
    request: &str,
) -> (r: Result<PreparedRequest, Error>)
    ensures
        r is Ok <==> signable(secret@) && signable(request@) && valid_header_value(api_key@),
        r matches Ok(p) ==> {
            &&& p.verb == verb
            &&& p.url@ == signed_url(host@, endpoint@, request@, secret@)
            &&& header_pairs(p.headers@) == key_headers(api_key@, carries_body(verb))
            &&& p.body is None
        },
        r matches Err(e) ==> (e is EncodingError || e is InvalidHeaderValue),
{
    let url = match sign_url(secret, host, endpoint, request) {
        Ok(u) => u,
        Err(e) => return Err(e),
    };
    let with_body = match verb {
        Verb::Post | Verb::Put => true,
        _ => false,
    };
    let headers = match build_headers(api_key, with_body) {
        Ok(h) => h,
        Err(e) => return Err(e),
    };
    Ok(PreparedRequest { verb, url, headers, body: None })
}

/// A signed call built from parameters: they are encoded, `recvWindow` and
/// `timestamp` appended, and the whole signed.
pub fn signed_params_request(
    api_key: &str,
    secret: &str,
    host: &str,
    verb: Verb,
    endpoint: &str,
    params: &Vec<Param>,
    recv_window: u64,
    timestamp: u64,
) -> (r: Result<PreparedRequest, Error>)
    ensures
        ({
            let q = signed_query(params@, recv_window, timestamp);
            &&& r is Ok <==> signable(secret@) && signable(q) && valid_header_value(api_key@)
            &&& r matches Ok(p) ==> {
                &&& p.verb == verb
                &&& p.url@ == signed_url(host@, endpoint@, q, secret@)
                &&& header_pairs(p.headers@) == key_headers(api_key@, carries_body(verb))
                &&& p.body is None
            }
            &&& r matches Err(e) ==> (e is EncodingError || e is InvalidHeaderValue)
        }),
{
    let request = build_signed_request(params, recv_window, timestamp);
    signed_request(api_key, secret, host, verb, endpoint, request.as_str())
}

/// A public GET: no API key and no signature, the user agent alone.
pub fn public_get(host: &str, endpoint: &str, request: Option<&str>) -> (r: PreparedRequest)
    ensures
        r.verb == Verb::Get,
        r.url@ == plain_url(host@, endpoint@, opt_view(request)),
        header_pairs(r.headers@) == public_headers(),
        r.body is None,
{
    PreparedRequest {
        verb: Verb::Get,
        url: plain_url_of(host, endpoint, request),
        headers: public_header_list(),
        body: None,
    }
}

/// An API-key POST (no signature) that names a symbol or nothing.
pub fn key_post(api_key: &str, host: &str, endpoint: &str, symbol: Option<&str>) -> (r: Result<
    PreparedRequest,
    Error,
>)
    ensures
        r is Ok <==> valid_header_value(api_key@),
        r matches Ok(p) ==> {
            &&& p.verb == Verb::Post
            &&& p.url@ == plain_url(host@, endpoint@, symbol_query(opt_view(symbol)))
            &&& header_pairs(p.headers@) == key_headers(api_key@, false)
            &&& p.body is None
        },
        r matches Err(e) ==> e == Error::InvalidHeaderValue,
{
    let headers = match build_headers(api_key, false) {
        Ok(h) => h,
        Err(e) => return Err(e),
    };
    let url = match symbol {
        Some(s) => {
            let mut q = String::from_str("symbol=");
            push_escaped(&mut q, s);
            plain_url_of(host, endpoint, Some(q.as_str()))
        },
        None => plain_url_of(host, endpoint, None),
    };
    Ok(PreparedRequest { verb: Verb::Post, url, headers, body: None })
}

/// The query of a listen-key call.
pub fn listen_key_query_of(listen_key: &str, symbol: Option<&str>) -> (r: String)
    ensures
        r@ == listen_key_query(listen_key@, opt_view(symbol)),
{
    let mut q = String::from_str("listenKey=");
    push_escaped(&mut q, listen_key);
    match symbol {
        Some(s) => {
            let ghost before = q@;
            q.append("&symbol=");
            push_escaped(&mut q, s);
            assert(q@ =~= before + ("&symbol="@ + form_escape(s@)));
        },
        None => {
            assert(q@ =~= q@ + Seq::<char>::empty());
        },
    }
    q
}

/// An API-key call (no signature) on a listen key:
/// `<host><endpoint>?listenKey=<key>[&symbol=<symbol>]`.
pub fn listen_key_request(
    api_key: &str,
    host: &str,
    verb: Verb,
    endpoint: &str,
    listen_key: &str,
    symbol: Option<&str>,
) -> (r: Result<PreparedRequest, Error>)
    ensures
        r is Ok <==> valid_header_value(api_key@),
        r matches Ok(p) ==> {
            &&& p.verb == verb
            &&& p.url@ == plain_url(host@, endpoint@, Some(listen_key_query(listen_key@, opt_view(symbol))))
            &&& header_pairs(p.headers@) == key_headers(api_key@, false)
            &&& p.body is None
        },
        r matches Err(e) ==> e == Error::InvalidHeaderValue,
{
    let headers = match build_headers(api_key, false) {
        Ok(h) => h,
        Err(e) => return Err(e),
    };
    let q = listen_key_query_of(listen_key, symbol);
    let url = plain_url_of(host, endpoint, Some(q.as_str()));
    Ok(PreparedRequest { verb, url, headers, body: None })
}

/// A signed call whose query travels as a form body:
/// the URL is `<host><endpoint>`, the body
/// `<params>&recvWindow=<n>&timestamp=<t>&signature=<hex>`.
pub fn signed_body_request(
    api_key: &str,
    secret: &str,
    host: &str,
    verb: Verb,
    endpoint: &str,
    params: &Vec<Param>,
    recv_window: u64,
    timestamp: u64,
) -> (r: Result<PreparedRequest, Error>)
    ensures
        ({
            let q = signed_query(params@, recv_window, timestamp);
            &&& r is Ok <==> signable(secret@) && signable(q) && valid_header_value(api_key@)
            &&& r matches Ok(p) ==> {
                &&& p.verb == verb
                &&& p.url@ == host@ + endpoint@
                &&& p.body matches Some(b) && b@ == q + "&signature="@ + signature_of(secret@, q)
                &&& header_pairs(p.headers@) == key_headers(api_key@, true)
            }
            &&& r matches Err(e) ==> (e is EncodingError || e is InvalidHeaderValue)
        }),
{
    let request = build_signed_request(params, recv_window, timestamp);
    if !check_signable(secret) || !check_signable(request.as_str()) {
        return Err(Error::EncodingError(String::from_str("input too long to sign")));
    }
    let signature = sign(secret, request.as_str());
    let headers = match build_headers(api_key, true) {
        Ok(h) => h,
        Err(e) => return Err(e),
    };
    let mut body = request;
    body.append("&signature=");
    body.append(signature.as_str());
    let url = plain_url_of(host, endpoint, None);
    Ok(PreparedRequest { verb, url, headers, body: Some(body) })
}

} // verus!
