//! The address a new window is pointed at, and the boundary to `url`.

use vstd::prelude::*;
use crate::json::text_result;

verus! {

/// The address a window opens when it is asked for without one.
pub const DEFAULT_URL: &'static str = "https://conduit-realworld-example-app.fly.dev/";

/// What `url::Url::parse` makes of a text: the serialization of the address
/// it reads, or the message of the error it reports.
pub uninterp spec fn url_parse(text: Seq<char>) -> Result<Seq<char>, Seq<char>>;

/// Calls `url::Url::parse`. The contract claims only that the outcome is a
/// function of the text: the serialization of the parsed address, or the
/// error's message as its `Display` writes it.
#[verifier::external_body]
pub(crate) fn parse_url(text: &str) -> (outcome: Result<String, String>)
    ensures
        text_result(outcome) == url_parse(text@),
{
    match url::Url::parse(text) {
        Ok(address) => Ok(String::from(address)),
        Err(error) => Err(error.to_string()),
    }
}

/// The address that is parsed for a request: the default for an empty
/// request, the request itself otherwise.
pub open spec fn effective_url(requested: Seq<char>) -> Seq<char> {
    if requested.len() == 0 {
        DEFAULT_URL@
    } else {
        requested
    }
}

/// Puts the default address in the place of an empty request.
pub fn effective_request<'a>(requested: &'a str) -> (address: &'a str)
    ensures
        address@ == effective_url(requested@),
{
    if requested.is_empty() {
        DEFAULT_URL
    } else {
        requested
    }
}

/// Settles the address of a new window: the serialization of the parsed
/// request, with the default in the place of an empty one, or the parser's
/// message where the request is no address.
pub fn resolve_target(requested: &str) -> (outcome: Result<String, String>)
    ensures
        text_result(outcome) == url_parse(effective_url(requested@)),
{
    parse_url(effective_request(requested))
}

/// An empty request is settled as the default address is.
pub proof fn lemma_empty_request_is_default()
    ensures
        effective_url(Seq::<char>::empty()) == DEFAULT_URL@,
        url_parse(effective_url(Seq::<char>::empty())) == url_parse(DEFAULT_URL@),
{
}

} // verus!
