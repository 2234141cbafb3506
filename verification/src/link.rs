//! Deep-link URLs, taken apart by the `url` crate.
//!
//! The syntax of URLs and of form-encoded query strings belongs to the
//! `url` crate. This module calls it, keeps what the router reads as plain
//! strings, and gives each outside result a name that contracts can speak of.

use vstd::prelude::*;

verus! {

/// Mathematical model of a [`ParsedUrl`].
pub ghost struct UrlModel {
    pub scheme: Seq<char>,
    pub path: Seq<char>,
    pub query: Option<Seq<char>>,
}

/// The components of an absolute URL that routing depends on.
#[derive(Clone, Debug, PartialEq, Eq)]
pub struct ParsedUrl {
    /// The scheme, without the `:` that ends it.
    pub scheme: String,
    /// The path, percent-encoded as it stands in the URL.
    pub path: String,
    /// The raw text between `?` and the fragment, if the URL has a `?`.
    pub query: Option<String>,
}

/// The view of an optional string.
pub open spec fn opt_view(s: Option<String>) -> Option<Seq<char>> {
    match s {
        Some(text) => Some(text@),
        None => None,
    }
}

impl View for ParsedUrl {
    type V = UrlModel;

    open spec fn view(&self) -> UrlModel {
        UrlModel { scheme: self.scheme@, path: self.path@, query: opt_view(self.query) }
    }
}

/// One decoded name and value of a query string.
pub type PairModel = (Seq<char>, Seq<char>);

/// The models of a list of decoded query pairs, in order.
pub open spec fn pairs_model(pairs: Seq<(String, String)>) -> Seq<PairModel> {
    pairs.map_values(|p: (String, String)| (p.0@, p.1@))
}

/// The error type of the `url` crate's parser.
#[verifier::external_type_specification]
#[verifier::external_body]
pub struct ExUrlParseError(url::ParseError);

/// What `url::Url::parse` makes of `input`: the scheme, path and query of
/// the URL it returns, or `None` where it returns an error.
pub uninterp spec fn url_parse(input: Seq<char>) -> Option<UrlModel>;

/// What `url::form_urlencoded::parse` yields on the bytes of `query`: the
/// decoded (name, value) pairs, in the order of the query string.
pub uninterp spec fn form_pairs(query: Seq<char>) -> Seq<PairModel>;

/// Calls `url::Url::parse` and copies the scheme, path and query out of
/// the URL it returns. The contract names that result `url_parse`; nothing
/// is claimed about which strings parse or what their components are.
#[verifier::external_body]
fn parse_absolute(input: &str) -> (r: Result<ParsedUrl, url::ParseError>)
    ensures
        match r {
            Ok(parsed) => url_parse(input@) == Some(parsed@),
            Err(_) => url_parse(input@).is_none(),
        },
{
    match url::Url::parse(input) {
        Ok(u) => Ok(
            ParsedUrl {
                scheme: u.scheme().to_owned(),
                path: u.path().to_owned(),
                query: u.query().map(|q| q.to_owned()),
            },
        ),
        Err(e) => Err(e),
    }
}

/// Calls `url::form_urlencoded::parse` on the bytes of `query` and collects
/// the pairs it yields as owned strings. The contract names that sequence
/// `form_pairs`; nothing is claimed about how names and values are decoded.
#[verifier::external_body]
fn decode_pairs(query: &str) -> (pairs: Vec<(String, String)>)
    ensures
        pairs_model(pairs@) == form_pairs(query@),
{
    url::form_urlencoded::parse(query.as_bytes()).into_owned().collect()
}

impl ParsedUrl {
    /// Parses `input` as an absolute URL.
    ///
    /// Returns the components exactly when the `url` crate accepts `input`.
    pub fn parse(input: &str) -> (r: Option<ParsedUrl>)
        ensures
            opt_url_view(r) == url_parse(input@),
    {
        match parse_absolute(input) {
            Ok(parsed) => Some(parsed),
            Err(_) => None,
        }
    }

    /// The raw query string, or the empty string where the URL has none.
    pub fn query_or_empty(&self) -> (q: &str)
        ensures
            q@ == query_text(self@),
    {
        match &self.query {
            Some(text) => text.as_str(),
            None => {
                proof {
                    reveal_strlit("");
                    assert(""@ =~= Seq::<char>::empty());
                }
                ""
            },
        }
    }

    /// The decoded (name, value) pairs of the query string, in order.
    pub fn query_pairs(&self) -> (pairs: Vec<(String, String)>)
        ensures
            pairs_model(pairs@) == form_pairs(query_text(self@)),
    {
        decode_pairs(self.query_or_empty())
    }
}

/// The view of an optional parsed URL.
pub open spec fn opt_url_view(u: Option<ParsedUrl>) -> Option<UrlModel> {
    match u {
        Some(parsed) => Some(parsed@),
        None => None,
    }
}

/// The raw query string of `url`, empty where it has none.
pub open spec fn query_text(url: UrlModel) -> Seq<char> {
    match url.query {
        Some(text) => text,
        None => Seq::empty(),
    }
}

} // verus!
