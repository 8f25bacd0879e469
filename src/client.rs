use vstd::prelude::*;

use crate::codec::{signed_query, Param};
use crate::errors::Error;
use crate::request::{
    build_headers,
    carries_body,
    header_pairs,
    key_headers,
    key_post,
    listen_key_query,
    listen_key_request,
    opt_view,
    plain_url,
    public_get,
    public_headers,
    sign_url,
    signed_body_request,
    signed_params_request,
    signed_request,
    signed_url,
    symbol_query,
    valid_header_value,
    Header,
    PreparedRequest,
    Verb,
};
use crate::signing::{signable, signature_of};

verus! {

/// The configuration of a client: credentials, host (for the host-bound
/// client) and timeout in seconds.
pub struct ClientView {
    pub api_key: Seq<char>,
    pub secret_key: Seq<char>,
    pub host: Seq<char>,
    pub timeout: Option<u64>,
}

/// An absent credential is the empty text.
pub open spec fn or_empty(o: Option<String>) -> Seq<char> {
    match o {
        Some(s) => s@,
        None => seq![],
    }
}

/// A client bound to one host. Its configuration is fixed at construction:
/// every method takes `&self`, so clones can be shared freely.
#[derive(Clone)]
pub struct Client {
    api_key: String,
    secret_key: String,
    host: String,
    timeout: Option<u64>,
}

impl View for Client {
    type V = ClientView;

    closed spec fn view(&self) -> ClientView {
        ClientView {
            api_key: self.api_key@,
            secret_key: self.secret_key@,
            host: self.host@,
            timeout: self.timeout,
        }
    }
}

impl Client {
    /// A client for `host`; credentials may be left out for public calls
    /// (they are then empty), and no timeout means none is enforced here.
    pub fn new(api_key: Option<String>, secret_key: Option<String>, host: String, timeout: Option<u64>) -> (r: Self)
        ensures
            r@.api_key == or_empty(api_key),
            r@.secret_key == or_empty(secret_key),
            r@.host == host@,
            r@.timeout == timeout,
    {
        let api_key = match api_key {
            Some(k) => k,
            None => String::new(),
        };
        let secret_key = match secret_key {
            Some(k) => k,
            None => String::new(),
        };
        Client { api_key, secret_key, host, timeout }
    }

    pub fn host(&self) -> (r: &str)
        ensures
            r@ == self@.host,
    {
        self.host.as_str()
    }

    pub fn timeout(&self) -> (r: Option<u64>)
        ensures
            r == self@.timeout,
    {
        self.timeout
    }

    /// `<host><endpoint>?<request>&signature=<hex>`.
    pub fn sign_request(&self, endpoint: &str, request: &str) -> (r: Result<String, Error>)
        ensures
            r is Ok <==> signable(self@.secret_key) && signable(request@),
            r matches Ok(url) ==> url@ == signed_url(self@.host, endpoint@, request@, self@.secret_key),
            r matches Err(e) ==> e is EncodingError,
    {
        sign_url(self.secret_key.as_str(), self.host.as_str(), endpoint, request)
    }

    /// User agent, API key, and the form content type when asked for.
    pub fn build_headers(&self, content_type: bool) -> (r: Result<Vec<Header>, Error>)
        ensures
            r is Ok <==> valid_header_value(self@.api_key),
            r matches Ok(hs) ==> header_pairs(hs@) == key_headers(self@.api_key, content_type),
            r matches Err(e) ==> e == Error::InvalidHeaderValue,
    {
        build_headers(self.api_key.as_str(), content_type)
    }

    /// A signed call on an already encoded request.
    pub fn prepare_signed(&self, verb: Verb, endpoint: &str, request: &str) -> (r: Result<PreparedRequest, Error>)
        ensures
            r is Ok <==> signable(self@.secret_key) && signable(request@) && valid_header_value(self@.api_key),
            r matches Ok(p) ==> {
                &&& p.verb == verb
                &&& p.url@ == signed_url(self@.host, endpoint@, request@, self@.secret_key)
                &&& header_pairs(p.headers@) == key_headers(self@.api_key, carries_body(verb))
                &&& p.body is None
            },
            r matches Err(e) ==> (e is EncodingError || e is InvalidHeaderValue),
    {
        signed_request(self.api_key.as_str(), self.secret_key.as_str(), self.host.as_str(), verb, endpoint, request)
    }

    /// A signed call on parameters, stamped with `recv_window` and the
    /// caller's `timestamp` (milliseconds, taken at issue time).
    pub fn prepare_signed_params(
        &self,
        verb: Verb,
        endpoint: &str,
        params: &Vec<Param>,
        recv_window: u64,
        timestamp: u64,
    ) -> (r: Result<PreparedRequest, Error>)
        ensures
            ({
                let q = signed_query(params@, recv_window, timestamp);
                &&& r is Ok <==> signable(self@.secret_key) && signable(q) && valid_header_value(self@.api_key)
                &&& r matches Ok(p) ==> {
                    &&& p.verb == verb
                    &&& p.url@ == signed_url(self@.host, endpoint@, q, self@.secret_key)
                    &&& header_pairs(p.headers@) == key_headers(self@.api_key, carries_body(verb))
                    &&& p.body is None
                }
                &&& r matches Err(e) ==> (e is EncodingError || e is InvalidHeaderValue)
            }),
    {
        signed_params_request(
            self.api_key.as_str(),
            self.secret_key.as_str(),
            self.host.as_str(),
            verb,
            endpoint,
            params,
            recv_window,
            timestamp,
        )
    }

    /// A public GET, with the user agent as its only header.
    pub fn prepare_get(&self, endpoint: &str, request: Option<&str>) -> (r: PreparedRequest)
        ensures
            r.verb == Verb::Get,
            r.url@ == plain_url(self@.host, endpoint@, opt_view(request)),
            header_pairs(r.headers@) == public_headers(),
            r.body is None,
    {
        public_get(self.host.as_str(), endpoint, request)
    }

    /// An API-key POST that names a symbol or nothing.
    pub fn prepare_post(&self, endpoint: &str, symbol: Option<&str>) -> (r: Result<PreparedRequest, Error>)
        ensures
            r is Ok <==> valid_header_value(self@.api_key),
            r matches Ok(p) ==> {
                &&& p.verb == Verb::Post
                &&& p.url@ == plain_url(self@.host, endpoint@, symbol_query(opt_view(symbol)))
                &&& header_pairs(p.headers@) == key_headers(self@.api_key, false)
                &&& p.body is None
            },
            r matches Err(e) ==> e == Error::InvalidHeaderValue,
    {
        key_post(self.api_key.as_str(), self.host.as_str(), endpoint, symbol)
    }

    /// An API-key call on a listen key (refresh with PUT, close with DELETE).
    pub fn prepare_listen_key(
        &self,
        verb: Verb,
        endpoint: &str,
        listen_key: &str,
        symbol: Option<&str>,
    ) -> (r: Result<PreparedRequest, Error>)
        ensures
            r is Ok <==> valid_header_value(self@.api_key),
            r matches Ok(p) ==> {
                &&& p.verb == verb
                &&& p.url@ == plain_url(
                    self@.host,
                    endpoint@,
                    Some(listen_key_query(listen_key@, opt_view(symbol))),
                )
                &&& header_pairs(p.headers@) == key_headers(self@.api_key, false)
                &&& p.body is None
            },
            r matches Err(e) ==> e == Error::InvalidHeaderValue,
    {
        listen_key_request(self.api_key.as_str(), self.host.as_str(), verb, endpoint, listen_key, symbol)
    }
}

/// The configuration of a host-parametrized client.
pub struct GenericClientView {
    pub api_key: Seq<char>,
    pub secret_key: Seq<char>,
    pub timeout: Option<u64>,
}

/// A client that is given the host on each call, so that one client can
/// address several API hosts.
#[derive(Clone)]
pub struct GenericClient {
    api_key: String,
    secret_key: String,
    timeout: Option<u64>,
}

impl View for GenericClient {
    type V = GenericClientView;

    closed spec fn view(&self) -> GenericClientView {
        GenericClientView { api_key: self.api_key@, secret_key: self.secret_key@, timeout: self.timeout }
    }
}

impl GenericClient {
    pub fn new(api_key: Option<String>, secret_key: Option<String>, timeout: Option<u64>) -> (r: Self)
        ensures
            r@.api_key == or_empty(api_key),
            r@.secret_key == or_empty(secret_key),
            r@.timeout == timeout,
    {
        let api_key = match api_key {
            Some(k) => k,
            None => String::new(),
        };
        let secret_key = match secret_key {
            Some(k) => k,
            None => String::new(),
        };
        GenericClient { api_key, secret_key, timeout }
    }

    pub fn timeout(&self) -> (r: Option<u64>)
        ensures
            r == self@.timeout,
    {
        self.timeout
    }

    /// `<host><endpoint>?<request>&signature=<hex>`.
    pub fn sign_request(&self, host: &str, endpoint: &str, request: &str) -> (r: Result<String, Error>)
        ensures
            r is Ok <==> signable(self@.secret_key) && signable(request@),
            r matches Ok(url) ==> url@ == signed_url(host@, endpoint@, request@, self@.secret_key),
            r matches Err(e) ==> e is EncodingError,
    {
        sign_url(self.secret_key.as_str(), host, endpoint, request)
    }

    /// User agent, API key, and the form content type when asked for.
    pub fn build_headers(&self, content_type: bool) -> (r: Result<Vec<Header>, Error>)
        ensures
            r is Ok <==> valid_header_value(self@.api_key),
            r matches Ok(hs) ==> header_pairs(hs@) == key_headers(self@.api_key, content_type),
            r matches Err(e) ==> e == Error::InvalidHeaderValue,
    {
        build_headers(self.api_key.as_str(), content_type)
    }

    /// A signed call on an already encoded request.
    pub fn prepare_signed(&self, host: &str, verb: Verb, endpoint: &str, request: &str) -> (r: Result<
        PreparedRequest,
        Error,
    >)
        ensures
            r is Ok <==> signable(self@.secret_key) && signable(request@) && valid_header_value(self@.api_key),
            r matches Ok(p) ==> {
                &&& p.verb == verb
                &&& p.url@ == signed_url(host@, endpoint@, request@, self@.secret_key)
                &&& header_pairs(p.headers@) == key_headers(self@.api_key, carries_body(verb))
                &&& p.body is None
            },
            r matches Err(e) ==> (e is EncodingError || e is InvalidHeaderValue),
    {
        signed_request(self.api_key.as_str(), self.secret_key.as_str(), host, verb, endpoint, request)
    }

    /// A signed call on parameters, stamped with `recv_window` and the
    /// caller's `timestamp`.
    pub fn prepare_signed_params(
        &self,
        host: &str,
        verb: Verb,
        endpoint: &str,
        params: &Vec<Param>,
        recv_window: u64,
        timestamp: u64,
    ) -> (r: Result<PreparedRequest, Error>)
        ensures
            ({
                let q = signed_query(params@, recv_window, timestamp);
                &&& r is Ok <==> signable(self@.secret_key) && signable(q) && valid_header_value(self@.api_key)
                &&& r matches Ok(p) ==> {
                    &&& p.verb == verb
                    &&& p.url@ == signed_url(host@, endpoint@, q, self@.secret_key)
                    &&& header_pairs(p.headers@) == key_headers(self@.api_key, carries_body(verb))
                    &&& p.body is None
                }
                &&& r matches Err(e) ==> (e is EncodingError || e is InvalidHeaderValue)
            }),
    {
        signed_params_request(
            self.api_key.as_str(),
            self.secret_key.as_str(),
            host,
            verb,
            endpoint,
            params,
            recv_window,
            timestamp,
        )
    }

    /// A public GET, with the user agent as its only header.
    pub fn prepare_get(&self, host: &str, endpoint: &str, request: Option<&str>) -> (r: PreparedRequest)
        ensures
            r.verb == Verb::Get,
            r.url@ == plain_url(host@, endpoint@, opt_view(request)),
            header_pairs(r.headers@) == public_headers(),
            r.body is None,
    {
        public_get(host, endpoint, request)
    }

    /// An API-key POST that names a symbol or nothing.
    pub fn prepare_post(&self, host: &str, endpoint: &str, symbol: Option<&str>) -> (r: Result<
        PreparedRequest,
        Error,
    >)
        ensures
            r is Ok <==> valid_header_value(self@.api_key),
            r matches Ok(p) ==> {
                &&& p.verb == Verb::Post
                &&& p.url@ == plain_url(host@, endpoint@, symbol_query(opt_view(symbol)))
                &&& header_pairs(p.headers@) == key_headers(self@.api_key, false)
                &&& p.body is None
            },
            r matches Err(e) ==> e == Error::InvalidHeaderValue,
    {
        key_post(self.api_key.as_str(), host, endpoint, symbol)
    }

    /// An API-key call on a listen key (refresh with PUT, close with DELETE).
    pub fn prepare_listen_key(
        &self,
        host: &str,
        verb: Verb,
        endpoint: &str,
        listen_key: &str,
        symbol: Option<&str>,
    ) -> (r: Result<PreparedRequest, Error>)
        ensures
            r is Ok <==> valid_header_value(self@.api_key),
            r matches Ok(p) ==> {
                &&& p.verb == verb
                &&& p.url@ == plain_url(host@, endpoint@, Some(listen_key_query(listen_key@, opt_view(symbol))))
                &&& header_pairs(p.headers@) == key_headers(self@.api_key, false)
                &&& p.body is None
            },
            r matches Err(e) ==> e == Error::InvalidHeaderValue,
    {
        listen_key_request(self.api_key.as_str(), host, verb, endpoint, listen_key, symbol)
    }

    /// A signed call whose query travels as a form body to
    /// `<host><endpoint>`; the body ends with the signature.
    pub fn prepare_send_request(
        &self,
        host: &str,
        endpoint: &str,
        verb: Verb,
        params: &Vec<Param>,
        recv_window: u64,
        timestamp: u64,
    ) -> (r: Result<PreparedRequest, Error>)
        ensures
            ({
                let q = signed_query(params@, recv_window, timestamp);
                &&& r is Ok <==> signable(self@.secret_key) && signable(q) && valid_header_value(self@.api_key)
                &&& r matches Ok(p) ==> {
                    &&& p.verb == verb
                    &&& p.url@ == host@ + endpoint@
                    &&& p.body matches Some(b) && b@ == q + "&signature="@ + signature_of(self@.secret_key, q)
                    &&& header_pairs(p.headers@) == key_headers(self@.api_key, true)
                }
                &&& r matches Err(e) ==> (e is EncodingError || e is InvalidHeaderValue)
            }),
    {
        signed_body_request(
            self.api_key.as_str(),
            self.secret_key.as_str(),
            host,
            verb,
            endpoint,
            params,
            recv_window,
            timestamp,
        )
    }
}

} // verus!
