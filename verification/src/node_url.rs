//! Node endpoint URLs, parsed by the `url` crate (as re-exported by `reqwest`).

use vstd::prelude::*;

use reqwest::Url;

verus! {

#[verifier::external_type_specification]
#[verifier::external_body]
pub struct ExUrl(Url);

/// What `Url::parse` gives for a text (WHATWG URL parsing, a function of the
/// text alone): the URL, or the text of the parse error.
pub uninterp spec fn url_parse_result(text: Seq<char>) -> Result<Url, Seq<char>>;

/// Whether a text is a URL.
pub open spec fn url_accepts(text: Seq<char>) -> bool {
    url_parse_result(text) is Ok
}

/// The URL a text parses to.
pub open spec fn parsed_url(text: Seq<char>) -> Url {
    url_parse_result(text)->Ok_0
}

/// The parser's error text for a text that is no URL.
pub open spec fn url_error_text(text: Seq<char>) -> Seq<char> {
    url_parse_result(text)->Err_0
}

/// A parse outcome with the error message as text.
pub open spec fn url_outcome_view(r: Result<Url, String>) -> Result<Url, Seq<char>> {
    match r {
        Ok(u) => Ok(u),
        Err(m) => Err(m@),
    }
}

/// `Url::parse`, with the error turned into its message (`to_string`). The
/// outcome is named by the text (`url_parse_result`).
#[verifier::external_body]
fn url_parse(text: &str) -> (r: Result<Url, String>)
    ensures
        url_outcome_view(r) == url_parse_result(text@),
{
    Url::parse(text).map_err(|e| e.to_string())
}

/// Parses a node endpoint: the URL, or the parser's message when it is no URL.
pub fn parse_url(text: &str) -> (r: Result<Url, String>)
    ensures
        url_outcome_view(r) == url_parse_result(text@),
        r is Ok <==> url_accepts(text@),
        r matches Ok(u) ==> u == parsed_url(text@),
        r matches Err(m) ==> m@ == url_error_text(text@),
{
    url_parse(text)
}

} // verus!
