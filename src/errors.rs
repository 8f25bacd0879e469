use vstd::string::StringExecFns;
use vstd::prelude::*;

verus! {

/// Message that the exchange sends with code -1013 when a price is rejected.
pub const INVALID_PRICE: &'static str = "Invalid price.";

/// Code of the exchange's "invalid price" error body.
pub const INVALID_PRICE_CODE: i64 = -1013;

/// Code of the exchange's "invalid listen key" error body.
pub const INVALID_LISTEN_KEY_CODE: i64 = -1125;

/// The structured error body `{code, msg}` that comes with a 400 response.
#[derive(Debug, Clone, PartialEq, Eq)]
pub struct ContentError {
    pub code: i64,
    pub msg: String,
}

/// Every way a call can fail.
#[derive(Debug, Clone, PartialEq, Eq)]
pub enum Error {
    /// A value could not be rendered into a request (local; never sent).
    EncodingError(String),
    /// A value cannot be carried by an HTTP header.
    InvalidHeaderValue,
    /// The connection failed or timed out.
    TransportFailure(String),
    /// A body did not have the shape the call expected.
    DeserializationError(String),
    Unauthorized,
    InternalServerError,
    ServiceUnavailable,
    /// A status outside the documented table.
    UnexpectedStatus { status: u16 },
    /// The exchange rejected a price.
    InvalidPrice,
    /// The exchange rejected a listen key; carries the exchange's message.
    InvalidListenKey(String),
    /// Any other structured error body.
    BusinessError { code: i64, msg: String },
}

/// The specific errors that a content error body can be mapped to.
#[derive(Debug, Clone, Copy, PartialEq, Eq, Structural)]
pub enum KnownError {
    InvalidPrice,
    InvalidListenKey,
}

/// One row of the lookup table: a code, and the message the row requires
/// (`None`: any message).
pub struct ContentErrorRule {
    pub code: i64,
    pub msg: Option<String>,
    pub kind: KnownError,
}

/// The lookup table, row by row, as `(code, required message, kind)`.
pub open spec fn content_error_table() -> Seq<(i64, Option<Seq<char>>, KnownError)> {
    seq![
        (INVALID_PRICE_CODE, Some(INVALID_PRICE@), KnownError::InvalidPrice),
        (INVALID_LISTEN_KEY_CODE, None, KnownError::InvalidListenKey),
    ]
}

pub open spec fn rule_view(r: ContentErrorRule) -> (i64, Option<Seq<char>>, KnownError) {
    (r.code, match r.msg { Some(m) => Some(m@), None => None }, r.kind)
}

pub open spec fn row_matches(row: (i64, Option<Seq<char>>, KnownError), code: i64, msg: Seq<char>) -> bool {
    row.0 == code && match row.1 {
        Some(m) => m == msg,
        None => true,
    }
}

/// The kind of the first row that matches, if any.
pub open spec fn lookup_known(
    table: Seq<(i64, Option<Seq<char>>, KnownError)>,
    code: i64,
    msg: Seq<char>,
) -> Option<KnownError>
    decreases table.len(),
{
    if table.len() == 0 {
        None
    } else if row_matches(table[0], code, msg) {
        Some(table[0].2)
    } else {
        lookup_known(table.drop_first(), code, msg)
    }
}

/// The error that a content error body stands for.
pub open spec fn content_error_to_error(e: ContentError) -> Error {
    match lookup_known(content_error_table(), e.code, e.msg@) {
        Some(KnownError::InvalidPrice) => Error::InvalidPrice,
        Some(KnownError::InvalidListenKey) => Error::InvalidListenKey(e.msg),
        None => Error::BusinessError { code: e.code, msg: e.msg },
    }
}

/// The rows of the lookup table; new mappings are added here.
pub fn content_error_rules() -> (r: Vec<ContentErrorRule>)
    ensures
        r@.map_values(|x: ContentErrorRule| rule_view(x)) == content_error_table(),
{
    let mut rules: Vec<ContentErrorRule> = Vec::new();
    rules.push(ContentErrorRule {
        code: INVALID_PRICE_CODE,
        msg: Some(String::from_str(INVALID_PRICE)),
        kind: KnownError::InvalidPrice,
    });
    rules.push(ContentErrorRule { code: INVALID_LISTEN_KEY_CODE, msg: None, kind: KnownError::InvalidListenKey });
    assert(rules@.map_values(|x: ContentErrorRule| rule_view(x)) =~= content_error_table());
    rules
}

/// Maps a decoded 400 body to an error: the first matching row of the
/// lookup table gives a specific error, and an unmatched body becomes a
/// generic business error carrying its code and message.
pub fn handle_content_error(error: ContentError) -> (r: Error)
    ensures
        r == content_error_to_error(error),
        error.code == INVALID_PRICE_CODE && error.msg@ == INVALID_PRICE@ ==> r == Error::InvalidPrice,
        error.code == INVALID_LISTEN_KEY_CODE ==> r == Error::InvalidListenKey(error.msg),
        error.code != INVALID_PRICE_CODE && error.code != INVALID_LISTEN_KEY_CODE ==> r == (
        Error::BusinessError { code: error.code, msg: error.msg }),
{
    proof {
        reveal_with_fuel(lookup_known, 3);
    }
    let rules = content_error_rules();
    let ghost table = content_error_table();
    let mut i: usize = 0;
    assert(table.skip(0) =~= table);
    while i < rules.len()
        invariant
            0 <= i <= rules@.len(),
            rules@.map_values(|x: ContentErrorRule| rule_view(x)) == table,
            table == content_error_table(),
            lookup_known(table, error.code, error.msg@) == lookup_known(
                table.skip(i as int),
                error.code,
                error.msg@,
            ),
        decreases rules@.len() - i,
    {
        let rule = &rules[i];
        let matched = rule.code == error.code && match &rule.msg {
            Some(m) => *m == error.msg,
            None => true,
        };
        assert(table.skip(i as int)[0] == rule_view(rules@[i as int]));
        if matched {
            match rule.kind {
                KnownError::InvalidPrice => {
                    return Error::InvalidPrice;
                },
                KnownError::InvalidListenKey => {
                    return Error::InvalidListenKey(error.msg);
                },
            }
        }
        assert(table.skip(i as int).drop_first() =~= table.skip(i + 1));
        i = i + 1;
    }
    assert(table.skip(i as int) =~= Seq::<(i64, Option<Seq<char>>, KnownError)>::empty());
    Error::BusinessError { code: error.code, msg: error.msg }
}

} // verus!
