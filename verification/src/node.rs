//! The client over the node's control-plane API: its error taxonomy, the
//! response-processing step shared by every call, and construction-time
//! validation of the client configuration.
//!
//! The HTTP transport itself, and the JSON (de)serialization of bodies, sit
//! outside this library; callers hand each exchange's status and decoded
//! body to [`process_response`] and get back the typed result or the
//! classified failure.

pub mod endpoints;
pub mod extensions;

use vstd::prelude::*;

verus! {

/// Everything a call against the node can fail with.
#[derive(Debug, Clone)]
pub enum NodeError {
    /// The wallet does not hold enough nanounits for the requested amount.
    InsufficientFunds { requested: u64, found: u64 },
    /// The configured API key is not a legal header value.
    InvalidApiKey,
    /// The base URL cannot take path segments.
    BaseUrl,
    /// The base URL string is malformed.
    UrlParsing(String),
    /// The request never completed: connection, name resolution or timeout.
    Transport(String),
    /// The node answered with a failure status, and said why if it did.
    Request { status: u16, message: String },
    /// The node answered with a body that does not match the expected shape.
    Decode(String),
    /// The wallet holds no private key for the address.
    MissingPrivateKey,
    /// The script compilation endpoint handed back a key-only address.
    NonScriptAddress,
}

/// Whether a status code is in the success range.
pub open spec fn is_success_status(status: u16) -> bool {
    200 <= status < 300
}

/// Decodes one HTTP exchange into a typed result or a classified failure:
/// a success status with a well-shaped body is the value; a success status
/// with a malformed body is a decoding failure; any other status is a
/// request failure carrying the status and the node's message, if present.
pub fn process_response<T>(
    status: u16,
    decoded: Result<T, String>,
    error_message: Option<String>,
) -> (r: Result<T, NodeError>)
    ensures
        is_success_status(status) && decoded is Ok ==> r is Ok && r->Ok_0 == decoded->Ok_0,
        is_success_status(status) && decoded is Err ==> (r matches Err(e) && e matches
            NodeError::Decode(m) && m == decoded->Err_0),
        !is_success_status(status) ==> (r matches Err(e) && e matches NodeError::Request {
            status: st,
            message,
        } && st == status && (match error_message {
            Some(m) => message == m,
            None => message@ == Seq::<char>::empty(),
        })),
{
    if 200 <= status && status < 300 {
        match decoded {
            Ok(v) => Ok(v),
            Err(m) => Err(NodeError::Decode(m)),
        }
    } else {
        let message = match error_message {
            Some(m) => m,
            None => String::new(),
        };
        Err(NodeError::Request { status, message })
    }
}

/// Whether the url library accepts a string as a well-formed URL.
pub uninterp spec fn url_accepted(s: Seq<char>) -> bool;

/// Relies on `url::Url::parse`: accepts exactly the well-formed URL strings,
/// and its outcome depends on the string alone.
#[verifier::external_body]
fn parse_base_url(s: &str) -> (r: Result<(), String>)
    ensures
        r is Ok <==> url_accepted(s@),
{
    match url::Url::parse(s) {
        Ok(_) => Ok(()),
        Err(e) => Err(e.to_string()),
    }
}

/// Whether a byte may appear in an HTTP header value: printable or high
/// bytes, or horizontal tab.
pub open spec fn header_value_byte_ok(b: u8) -> bool {
    b == 9 || (b >= 32 && b != 127)
}

/// Whether a string is a legal header value: every byte of its UTF-8 form
/// is a legal header value byte.
pub open spec fn valid_api_key(key: Seq<char>) -> bool {
    forall|i: int|
        0 <= i < vstd::utf8::encode_utf8(key).len() ==> header_value_byte_ok(
            #[trigger] vstd::utf8::encode_utf8(key)[i],
        )
}

/// Relies on `reqwest::header::HeaderValue::from_str`: it accepts a string
/// exactly when every byte is 32..=255 except 127, or tab.
#[verifier::external_body]
fn api_key_header_ok(s: &str) -> (r: bool)
    ensures
        r == valid_api_key(s@),
{
    reqwest::header::HeaderValue::from_str(s).is_ok()
}

/// The immutable client configuration: where the node lives, how calls
/// authenticate, and how long each single request may take.
#[derive(Debug, Clone)]
pub struct NodeClient {
    /// The node's base URL, validated as well-formed.
    pub base_url: String,
    /// The API key sent with every request, validated as a header value.
    pub api_key: String,
    /// Per-request timeout, in milliseconds.
    pub timeout_millis: u64,
}

impl NodeClient {
    /// Builds a client configuration, failing fast on a malformed base URL
    /// or an API key that is no legal header value.
    pub fn from_url_str(url_str: &str, api_key: String, timeout_millis: u64) -> (r: Result<
        NodeClient,
        NodeError,
    >)
        ensures
            !url_accepted(url_str@) ==> (r matches Err(e) && e is UrlParsing),
            url_accepted(url_str@) && !valid_api_key(api_key@) ==> (r matches Err(e) && e
                is InvalidApiKey),
            url_accepted(url_str@) && valid_api_key(api_key@) ==> (r matches Ok(c)
                && c.base_url@ == url_str@ && c.api_key@ == api_key@ && c.timeout_millis
                == timeout_millis),
    {
        if let Err(m) = parse_base_url(url_str) {
            return Err(NodeError::UrlParsing(m));
        }
        if !api_key_header_ok(api_key.as_str()) {
            return Err(NodeError::InvalidApiKey);
        }
        Ok(NodeClient { base_url: url_str.to_owned(), api_key, timeout_millis })
    }

    /// Hands out the root of the endpoint hierarchy: no path segments yet.
    pub fn endpoints(&self) -> (r: endpoints::NodeEndpoint)
        ensures
            r.path@.len() == 0,
    {
        endpoints::NodeEndpoint::new()
    }
}

} // verus!
