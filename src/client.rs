//! The client: a transport binding whose default headers are fixed when it is
//! built.
use crate::error::ApiError;
use reqwest::blocking::Client;
use reqwest::header::{HeaderValue, InvalidHeaderValue};
use vstd::prelude::*;

verus! {

/// The user agent that every request carries: the library's name and version.
pub const USER_AGENT: &'static str = "rlstats (v 0.1.0)";

/// The content type that every request accepts.
pub const ACCEPT_JSON: &'static str = "application/json";

/// A character that may stand in an HTTP header value: a tab, or anything
/// from the space up but DEL. Characters beyond ASCII are encoded as bytes of
/// 128 and above, which are all allowed.
pub open spec fn header_char_ok(c: char) -> bool {
    c == '\t' || (32 <= c as u32 && c as u32 != 127)
}

/// Text that may stand in an HTTP header value.
pub open spec fn header_text_ok(s: Seq<char>) -> bool {
    forall|i: int| 0 <= i < s.len() ==> #[trigger] header_char_ok(s[i])
}

/// The headers that the client sets on every request.
#[derive(Clone, Copy, Debug, PartialEq, Eq)]
pub enum DefaultHeader {
    Authorization,
    Accept,
    UserAgent,
}

/// The value of each default header of a client built with the key `key`.
pub open spec fn default_header_of(key: Seq<char>, which: DefaultHeader) -> Seq<char> {
    match which {
        DefaultHeader::Authorization => key,
        DefaultHeader::Accept => ACCEPT_JSON@,
        DefaultHeader::UserAgent => USER_AGENT@,
    }
}

/// A header value together with the text it was made from.
pub struct CheckedHeader {
    text: String,
    value: HeaderValue,
}

impl CheckedHeader {
    /// The text the header value was made from.
    pub closed spec fn text(&self) -> Seq<char> {
        self.text@
    }
}

/// Relies on `HeaderValue::from_str` (the `http` crate's, re-exported by
/// reqwest): it accepts the text exactly when every byte is a tab, or at least
/// 32 and not 127, and then holds that text.
#[verifier::external_body]
fn header_value(s: &str) -> (r: Result<CheckedHeader, InvalidHeaderValue>)
    ensures
        r is Ok <==> header_text_ok(s@),
        r is Ok ==> r->Ok_0.text() == s@,
{
    match HeaderValue::from_str(s) {
        Ok(value) => Ok(CheckedHeader { text: s.to_owned(), value }),
        Err(e) => Err(e),
    }
}

/// Relies on reqwest's `ClientBuilder::default_headers` and `build`: the
/// client is built with the three values as its default `Authorization`,
/// `Accept` and `User-Agent` headers, and keeps their texts. Building fails
/// where the TLS backend or the resolver cannot be set up, so success is not
/// promised. It panics inside an async runtime.
#[verifier::external_body]
fn build_client(auth: CheckedHeader, accept: CheckedHeader, agent: CheckedHeader) -> (r: Result<
    RlStats,
    reqwest::Error,
>)
    ensures
        r is Ok ==> r->Ok_0.header_spec(DefaultHeader::Authorization) == auth.text(),
        r is Ok ==> r->Ok_0.header_spec(DefaultHeader::Accept) == accept.text(),
        r is Ok ==> r->Ok_0.header_spec(DefaultHeader::UserAgent) == agent.text(),
{
    let headers = [
        (reqwest::header::AUTHORIZATION, auth.value),
        (reqwest::header::ACCEPT, accept.value),
        (reqwest::header::USER_AGENT, agent.value),
    ].into_iter().collect();
    let client = reqwest::blocking::ClientBuilder::new().default_headers(headers).build()?;
    Ok(RlStats { client, authorization: auth.text, accept: accept.text, user_agent: agent.text })
}

/// A client of the RocketLeagueStats service.
pub struct RlStats {
    client: Client,
    authorization: String,
    accept: String,
    user_agent: String,
}

impl RlStats {
    /// The value of a default header that the transport was built with.
    pub closed spec fn header_spec(&self, which: DefaultHeader) -> Seq<char> {
        match which {
            DefaultHeader::Authorization => self.authorization@,
            DefaultHeader::Accept => self.accept@,
            DefaultHeader::UserAgent => self.user_agent@,
        }
    }

    /// Builds the client, with `api_key` as the `Authorization` header,
    /// `Accept: application/json` and the library's user agent. A key that
    /// cannot stand in a header value gives `Invalid`; a transport that cannot
    /// be set up gives the transport's error. Not to be called inside an async
    /// runtime.
    pub fn new(api_key: &str) -> (r: Result<RlStats, ApiError>)
        ensures
            r matches Err(ApiError::Invalid) <==> !header_text_ok(api_key@),
            r is Ok || r matches Err(ApiError::Invalid) || r matches Err(ApiError::ReqwestError(_)),
            r is Ok ==> forall|which: DefaultHeader|
                r->Ok_0.header_spec(which) == #[trigger] default_header_of(api_key@, which),
    {
        proof {
            reveal_strlit("application/json");
            reveal_strlit("rlstats (v 0.1.0)");
        }
        let auth = match header_value(api_key) {
            Ok(v) => v,
            Err(_) => return Err(ApiError::Invalid),
        };
        let accept = match header_value(ACCEPT_JSON) {
            Ok(v) => v,
            Err(_) => return Err(ApiError::Invalid),
        };
        let agent = match header_value(USER_AGENT) {
            Ok(v) => v,
            Err(_) => return Err(ApiError::Invalid),
        };
        match build_client(auth, accept, agent) {
            Ok(client) => {
                assert(forall|which: DefaultHeader|
                    client.header_spec(which) == #[trigger] default_header_of(api_key@, which)) by {
                    assert(client.header_spec(DefaultHeader::Accept) == ACCEPT_JSON@);
                }
                Ok(client)
            },
            Err(e) => Err(ApiError::from(e)),
        }
    }

    /// The value of a default header that every request of this client
    /// carries.
    pub fn header(&self, which: DefaultHeader) -> (r: &str)
        ensures
            r@ == self.header_spec(which),
    {
        match which {
            DefaultHeader::Authorization => self.authorization.as_str(),
            DefaultHeader::Accept => self.accept.as_str(),
            DefaultHeader::UserAgent => self.user_agent.as_str(),
        }
    }

    /// The transport binding that every request goes through.
    pub fn transport(&self) -> &Client {
        &self.client
    }
}

} // verus!
