//! The fast.com API: where the token is found and how the server list is
//! requested and checked. The HTTP requests themselves are made by the caller.
use vstd::prelude::*;

use crate::pattern::{TextPattern, captured_group, first_match, is_infix, opt_text, pattern_compiles};
use crate::text::{all_digits, decimal, decimal_string, decimal_value, lemma_decimal_denotes};

verus! {

/// Why a step of talking to fast.com failed.
#[derive(Clone, Copy, Debug, PartialEq, Eq, Structural)]
pub enum ApiError {
    /// One of the fixed patterns was refused by the pattern engine.
    InvalidPattern,
    /// The fast.com page names no JS bundle.
    BundleNotFound,
    /// The JS bundle holds no token.
    TokenNotFound,
    /// The API answered with an empty list of test servers.
    NoServers,
}

impl ApiError {
    /// The message that describes the error.
    pub fn message(&self) -> (s: &'static str)
        ensures
            s@ == self.message_text(),
    {
        proof {
            reveal_strlit("Invalid pattern");
            reveal_strlit("Could not locate Fast.com JS bundle");
            reveal_strlit("Could not extract token");
            reveal_strlit("No test servers returned");
        }
        match self {
            ApiError::InvalidPattern => "Invalid pattern",
            ApiError::BundleNotFound => "Could not locate Fast.com JS bundle",
            ApiError::TokenNotFound => "Could not extract token",
            ApiError::NoServers => "No test servers returned",
        }
    }

    pub open spec fn message_text(&self) -> Seq<char> {
        match self {
            ApiError::InvalidPattern => "Invalid pattern"@,
            ApiError::BundleNotFound => "Could not locate Fast.com JS bundle"@,
            ApiError::TokenNotFound => "Could not extract token"@,
            ApiError::NoServers => "No test servers returned"@,
        }
    }
}

/// One test server endpoint.
#[derive(Debug)]
pub struct Server {
    pub url: String,
}

/// The part of the API's answer that the runner reads.
#[derive(Debug)]
pub struct ApiResponse {
    pub targets: Vec<Server>,
}

/// The page that names the JS bundle.
pub const FAST_HOME_URL: &'static str = "https://fast.com";

/// Finds the name of the JS bundle in the page.
pub const BUNDLE_PATTERN: &'static str = r"app-.*?\.js";

/// Finds the token in the JS bundle; group 1 is the token.
pub const TOKEN_PATTERN: &'static str = r#"token:"(.*?)""#;

/// The view of a result that holds a string.
pub open spec fn text_result(r: Result<String, ApiError>) -> Result<Seq<char>, ApiError> {
    match r {
        Ok(s) => Ok(s@),
        Err(e) => Err(e),
    }
}

/// A text found, or the error that stands for its absence.
pub open spec fn found_or(found: Option<Seq<char>>, missing: ApiError) -> Result<Seq<char>, ApiError> {
    match found {
        Some(s) => Ok(s),
        None => Err(missing),
    }
}

/// What locating the bundle in `html` gives.
pub open spec fn bundle_outcome(html: Seq<char>) -> Result<Seq<char>, ApiError> {
    if pattern_compiles(BUNDLE_PATTERN@) {
        found_or(first_match(BUNDLE_PATTERN@, html), ApiError::BundleNotFound)
    } else {
        Err(ApiError::InvalidPattern)
    }
}

/// What extracting the token from `bundle` gives.
pub open spec fn token_outcome(bundle: Seq<char>) -> Result<Seq<char>, ApiError> {
    if pattern_compiles(TOKEN_PATTERN@) {
        found_or(captured_group(TOKEN_PATTERN@, bundle, 1), ApiError::TokenNotFound)
    } else {
        Err(ApiError::InvalidPattern)
    }
}

/// Turns the outcome of the bundle search into the bundle name or
/// `ApiError::BundleNotFound`.
pub fn bundle_from_match(found: Option<String>) -> (r: Result<String, ApiError>)
    ensures
        text_result(r) == found_or(opt_text(found), ApiError::BundleNotFound),
{
    match found {
        Some(s) => Ok(s),
        None => Err(ApiError::BundleNotFound),
    }
}

/// Turns the outcome of the token capture into the token or
/// `ApiError::TokenNotFound`.
pub fn token_from_capture(captured: Option<String>) -> (r: Result<String, ApiError>)
    ensures
        text_result(r) == found_or(opt_text(captured), ApiError::TokenNotFound),
{
    match captured {
        Some(s) => Ok(s),
        None => Err(ApiError::TokenNotFound),
    }
}

/// Locates the JS bundle name (the first `app-….js` on one line) in the
/// fast.com page.
pub fn locate_bundle(html: &str) -> (r: Result<String, ApiError>)
    ensures
        text_result(r) == bundle_outcome(html@),
        r matches Ok(name) ==> is_infix(name@, html@),
{
    let pattern = TextPattern::new(BUNDLE_PATTERN)?;
    let found = pattern.find_text(html);
    bundle_from_match(found)
}

/// The address of the JS bundle named `bundle`.
pub fn bundle_url(bundle: &str) -> (url: String)
    ensures
        url@ == "https://fast.com/"@ + bundle@,
{
    let mut url = String::from_str("https://fast.com/");
    url.append(bundle);
    url
}

/// Extracts the token (the text between `token:"` and the next `"`) from the
/// JS bundle.
pub fn extract_token(bundle: &str) -> (r: Result<String, ApiError>)
    ensures
        text_result(r) == token_outcome(bundle@),
        r matches Ok(token) ==> is_infix(token@, bundle@),
{
    let pattern = TextPattern::new(TOKEN_PATTERN)?;
    let captured = pattern.capture_text(bundle, 1);
    token_from_capture(captured)
}

/// The address that asks the API for `connections` test servers.
pub open spec fn servers_url_text(token: Seq<char>, connections: nat) -> Seq<char> {
    "https://api.fast.com/netflix/speedtest/v2?https=true&token="@ + token + "&urlCount="@
        + decimal(connections)
}

/// Builds the address that asks the API for `connections` test servers with
/// the given token.
pub fn servers_url(token: &str, connections: usize) -> (url: String)
    ensures
        url@ == servers_url_text(token@, connections as nat),
{
    let mut url = String::from_str("https://api.fast.com/netflix/speedtest/v2?https=true&token=");
    url.append(token);
    url.append("&urlCount=");
    let count = decimal_string(connections as u64);
    url.append(count.as_str());
    url
}

/// Accepts the API's answer when it lists at least one server.
pub fn check_servers(response: ApiResponse) -> (r: Result<Vec<Server>, ApiError>)
    ensures
        r is Err <==> response.targets@.len() == 0,
        r matches Err(e) ==> e == ApiError::NoServers,
        r matches Ok(servers) ==> servers@ == response.targets@,
{
    if response.targets.len() == 0 {
        Err(ApiError::NoServers)
    } else {
        Ok(response.targets)
    }
}

/// The request for servers names the token and then asks for exactly the
/// requested number of servers: after `&urlCount=` the address ends in a
/// string of decimal digits whose value is `connections`. So two different
/// counts never give the same address.
pub proof fn lemma_servers_url_asks_for_connections(token: Seq<char>, connections: nat, other: nat)
    ensures
        ({
            let url = servers_url_text(token, connections);
            let head = "https://api.fast.com/netflix/speedtest/v2?https=true&token="@ + token
                + "&urlCount="@;
            let count = url.subrange(head.len() as int, url.len() as int);
            &&& head.is_prefix_of(url)
            &&& count.len() > 0
            &&& all_digits(count)
            &&& decimal_value(count) == connections
        }),
        servers_url_text(token, connections) == servers_url_text(token, other) ==> connections
            == other,
{
    let url = servers_url_text(token, connections);
    let head = "https://api.fast.com/netflix/speedtest/v2?https=true&token="@ + token + "&urlCount="@;
    lemma_decimal_denotes(connections);
    lemma_decimal_denotes(other);
    assert(url.subrange(head.len() as int, url.len() as int) =~= decimal(connections));
    assert(url.subrange(0, head.len() as int) =~= head);
    let url2 = servers_url_text(token, other);
    if url == url2 {
        assert(url2.subrange(head.len() as int, url2.len() as int) =~= decimal(other));
    }
}

} // verus!
