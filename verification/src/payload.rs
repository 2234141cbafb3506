//! Deep-link payloads: from what the platform delivers to one URL.
//!
//! The platform hands over either a bare URL or a JSON array of URL
//! strings. The first URL that can be had from the payload wins.

use vstd::prelude::*;
use vstd::string::StringExecFns;
use crate::link::{opt_url_view, url_parse, ParsedUrl, UrlModel};

verus! {

/// Why a deep link did not reach the front-end.
#[derive(Clone, Copy, Debug, PartialEq, Eq, Structural)]
pub enum RouteError {
    /// The payload is neither a URL nor a non-empty JSON array of strings
    /// whose first element is a URL.
    ParseFailure,
    /// A URL was found, but there is no main window to deliver to.
    NoActiveWindow,
}

/// How loudly a diagnostic is logged.
#[derive(Clone, Copy, Debug, PartialEq, Eq, Structural)]
pub enum LogLevel {
    Info,
    Warn,
    Error,
}

/// The level at which a dropped deep link is logged: a payload that cannot
/// be parsed is a warning, a missing window an error.
pub open spec fn level_of(error: RouteError) -> LogLevel {
    match error {
        RouteError::ParseFailure => LogLevel::Warn,
        RouteError::NoActiveWindow => LogLevel::Error,
    }
}

/// The text logged for a dropped deep link. Only a parse failure quotes
/// the payload.
pub open spec fn message_of(error: RouteError, payload: Seq<char>) -> Seq<char> {
    match error {
        RouteError::ParseFailure => "Failed to parse deep link payload: "@ + payload,
        RouteError::NoActiveWindow => "Failed to get main window for deep link handling"@,
    }
}

impl RouteError {
    /// The level at which the error is logged.
    pub fn level(&self) -> (level: LogLevel)
        ensures
            level == level_of(*self),
    {
        match self {
            RouteError::ParseFailure => LogLevel::Warn,
            RouteError::NoActiveWindow => LogLevel::Error,
        }
    }

    /// The text logged for the error, for the payload that caused it.
    pub fn message(&self, payload: &str) -> (text: String)
        ensures
            text@ == message_of(*self, payload@),
    {
        match self {
            RouteError::ParseFailure => {
                let mut text = "Failed to parse deep link payload: ".to_owned();
                text.append(payload);
                text
            },
            RouteError::NoActiveWindow => {
                "Failed to get main window for deep link handling".to_owned()
            },
        }
    }
}

/// The error type of `serde_json`.
#[verifier::external_type_specification]
#[verifier::external_body]
pub struct ExJsonError(serde_json::Error);

/// What `serde_json::from_str::<Vec<String>>` makes of `text`: the strings
/// of the array, in order, or `None` where it returns an error.
pub uninterp spec fn json_string_array(text: Seq<char>) -> Option<Seq<Seq<char>>>;

/// The views of a list of strings, in order.
pub open spec fn strings_model(items: Seq<String>) -> Seq<Seq<char>> {
    items.map_values(|s: String| s@)
}

/// Calls `serde_json::from_str` to read `text` as a JSON array of strings.
/// The contract names the outcome `json_string_array`; nothing is claimed
/// about which texts are accepted.
#[verifier::external_body]
fn read_string_array(text: &str) -> (r: Result<Vec<String>, serde_json::Error>)
    ensures
        match r {
            Ok(items) => json_string_array(text@) == Some(strings_model(items@)),
            Err(_) => json_string_array(text@).is_none(),
        },
{
    serde_json::from_str::<Vec<String>>(text)
}

/// The URL that the first element of `items` parses to, if there is a first
/// element and it is a URL.
pub open spec fn first_url_of(items: Seq<Seq<char>>) -> Option<UrlModel> {
    if items.len() == 0 {
        None
    } else {
        url_parse(items[0])
    }
}

/// The URL a payload stands for: the payload itself where it is a URL,
/// else the first element of the JSON array it encodes.
pub open spec fn resolve_spec(payload: Seq<char>) -> Option<UrlModel> {
    match url_parse(payload) {
        Some(url) => Some(url),
        None => match json_string_array(payload) {
            Some(items) => first_url_of(items),
            None => None,
        },
    }
}

/// Parses the first of `urls`; later elements are never looked at.
pub fn first_url(urls: &Vec<String>) -> (r: Option<ParsedUrl>)
    ensures
        opt_url_view(r) == first_url_of(strings_model(urls@)),
{
    if urls.len() == 0 {
        None
    } else {
        ParsedUrl::parse(urls[0].as_str())
    }
}

/// Finds the URL that `payload` stands for.
///
/// Fails with [`RouteError::ParseFailure`], and with nothing else, exactly
/// when the payload stands for no URL.
pub fn resolve_payload(payload: &str) -> (r: Result<ParsedUrl, RouteError>)
    ensures
        match r {
            Ok(url) => resolve_spec(payload@) == Some(url@),
            Err(e) => e == RouteError::ParseFailure && resolve_spec(payload@).is_none(),
        },
{
    match ParsedUrl::parse(payload) {
        Some(url) => Ok(url),
        None => match read_string_array(payload) {
            Ok(urls) => match first_url(&urls) {
                Some(url) => Ok(url),
                None => Err(RouteError::ParseFailure),
            },
            Err(_) => Err(RouteError::ParseFailure),
        },
    }
}

/// Of a JSON array only the first element counts: two arrays with the same
/// first element stand for the same URL.
pub proof fn lemma_first_url_wins(first: Seq<char>, rest_a: Seq<Seq<char>>, rest_b: Seq<Seq<char>>)
    ensures
        first_url_of(seq![first] + rest_a) == first_url_of(seq![first] + rest_b),
        first_url_of(seq![first] + rest_a) == url_parse(first),
{
    assert((seq![first] + rest_a)[0] == first);
    assert((seq![first] + rest_b)[0] == first);
}

} // verus!
