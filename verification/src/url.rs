//! The query of a URL, read with the URL parser that `reqwest` exports.

use vstd::prelude::*;
use crate::text::{first_match, option_view, str_eq};

verus! {

/// One `name=value` pair of a URL's query, decoded.
#[derive(Debug)]
pub struct QueryPair {
    pub name: String,
    pub value: String,
}

/// The mathematical value of a `QueryPair`.
pub struct QueryPairView {
    pub name: Seq<char>,
    pub value: Seq<char>,
}

impl View for QueryPair {
    type V = QueryPairView;

    open spec fn view(&self) -> QueryPairView {
        QueryPairView { name: self.name@, value: self.value@ }
    }
}

/// The values of a list of pairs, in order.
pub open spec fn pairs_view(pairs: Seq<QueryPair>) -> Seq<QueryPairView> {
    Seq::new(pairs.len(), |i: int| pairs[i]@)
}

/// `reqwest::Url`, a parsed URL.
#[verifier::external_type_specification]
#[verifier::external_body]
pub struct ExUrl(reqwest::Url);

/// The URL that a text is parsed to; `None` where the text is no URL.
pub uninterp spec fn parsed_url(href: Seq<char>) -> Option<reqwest::Url>;

/// The pairs of the query of a URL, decoded, in order; empty where the URL
/// has no query.
pub uninterp spec fn url_query_pairs(url: reqwest::Url) -> Seq<QueryPairView>;

/// Calls `reqwest::Url::parse`. The parser's result is only named, as
/// `parsed_url`.
#[verifier::external_body]
pub(crate) fn parse_url(href: &str) -> (r: Option<reqwest::Url>)
    ensures
        r == parsed_url(href@),
{
    reqwest::Url::parse(href).ok()
}

/// Calls `Url::query_pairs` and copies each decoded pair that the iterator
/// gives. The result is only named, as `url_query_pairs`.
#[verifier::external_body]
pub(crate) fn query_pairs(url: &reqwest::Url) -> (r: Vec<QueryPair>)
    ensures
        pairs_view(r@) == url_query_pairs(*url),
{
    url.query_pairs().map(|(k, v)| QueryPair { name: k.into_owned(), value: v.into_owned() }).collect()
}

/// The name of each pair, in order.
pub open spec fn pair_names(pairs: Seq<QueryPairView>) -> Seq<Seq<char>> {
    Seq::new(pairs.len(), |i: int| pairs[i].name)
}

/// The value of the first pair with the given name.
pub open spec fn query_value(pairs: Seq<QueryPairView>, name: Seq<char>) -> Option<Seq<char>> {
    let i = first_match(pair_names(pairs), name, 0);
    if i < pairs.len() {
        Some(pairs[i].value)
    } else {
        None
    }
}

/// The value of the first `name` parameter in the query of `href`.
pub open spec fn url_parameter(href: Seq<char>, name: Seq<char>) -> Option<Seq<char>> {
    match parsed_url(href) {
        Some(url) => query_value(url_query_pairs(url), name),
        None => None,
    }
}

/// The value of the first pair with the given name.
pub fn get_query_value(pairs: &Vec<QueryPair>, name: &str) -> (r: Option<String>)
    ensures
        option_view(r) == query_value(pairs_view(pairs@), name@),
{
    let mut i: usize = 0;
    while i < pairs.len()
        invariant
            i <= pairs.len(),
            first_match(pair_names(pairs_view(pairs@)), name@, 0) == first_match(
                pair_names(pairs_view(pairs@)),
                name@,
                i as int,
            ),
        decreases pairs.len() - i,
    {
        if str_eq(pairs[i].name.as_str(), name) {
            return Some(pairs[i].value.clone());
        }
        i = i + 1;
    }
    None
}

/// The value of the first `name` parameter in the query of `href`; `None`
/// where `href` is no URL or has no such parameter.
pub fn get_url_parameter(href: &str, name: &str) -> (r: Option<String>)
    ensures
        option_view(r) == url_parameter(href@, name@),
{
    match parse_url(href) {
        Some(url) => {
            let pairs = query_pairs(&url);
            get_query_value(&pairs, name)
        },
        None => None,
    }
}

} // verus!
