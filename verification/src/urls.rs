use vstd::prelude::*;

use url::{ParseError, Url};

use crate::nats_names::utf8_len;

verus! {

#[verifier::external_type_specification]
#[verifier::external_body]
pub struct ExUrl(url::Url);

#[verifier::external_type_specification]
#[verifier::external_body]
pub struct ExUrlParseError(url::ParseError);

/// The text of a URL: what `url::Url::as_str` gives back, its serialization.
/// A `Url` is determined by this text (the crate keeps every other field of
/// it equal to what parsing the text again gives).
pub uninterp spec fn url_text(u: Url) -> Seq<char>;

/// What `url::Url::parse` makes of a text: the text of the URL that it reads,
/// or `None` where it reads none. Which texts it accepts, and how it
/// normalizes them, is the WHATWG URL standard, which is not restated here.
pub uninterp spec fn url_parse_result(input: Seq<char>) -> Option<Seq<char>>;

/// The text of a URL after `url::Url::set_path(path)` on a URL whose text is
/// `text`: the path replaced by `path`, percent-encoded as the standard asks.
pub uninterp spec fn url_with_path(text: Seq<char>, path: Seq<char>) -> Seq<char>;

/// The text of a URL after `url::Url::set_query(query)` on a URL whose text is
/// `text`: the query replaced by `query`, percent-encoded, or removed for `None`.
pub uninterp spec fn url_with_query(text: Seq<char>, query: Option<Seq<char>>) -> Seq<char>;

/// Whether `url::Url::parse` reads a URL from the text.
pub open spec fn url_parses(input: Seq<char>) -> bool {
    url_parse_result(input) is Some
}

/// The characters of an optional text.
pub open spec fn opt_text(s: Option<&str>) -> Option<Seq<char>> {
    match s {
        Some(t) => Some(t@),
        None => None,
    }
}

/// `url::Url::parse`: reads an absolute URL, or says why it cannot. The
/// contract claims that the outcome and the text of the URL read are a
/// function of the input alone.
#[verifier::external_body]
pub(crate) fn parse_url(input: &str) -> (r: Result<Url, ParseError>)
    ensures
        r is Ok == url_parses(input@),
        r matches Ok(u) ==> url_parse_result(input@) == Some(url_text(u)),
{
    Url::parse(input)
}

/// `url::Url::as_str`: the text of the URL.
#[verifier::external_body]
pub(crate) fn url_as_str(url: &Url) -> (s: &str)
    ensures
        s@ == url_text(*url),
{
    url.as_str()
}

/// `url::Url::set_path`: replaces the path of the URL, percent-encoding it as
/// needed. `Url` records positions in its text as `u32`, and the call panics
/// where the new text passes `u32::MAX` bytes; the new path takes at most
/// three bytes for each byte of `path` and four bytes of separators, which the
/// `requires` leaves room for. The contract claims that the new text is a
/// function of the old text and `path`, and that it grows by no more than that.
#[verifier::external_body]
pub(crate) fn set_url_path(url: &mut Url, path: &str)
    requires
        utf8_len(url_text(*old(url))) + 3 * utf8_len(path@) + 4 <= u32::MAX,
    ensures
        url_text(*final(url)) == url_with_path(url_text(*old(url)), path@),
        utf8_len(url_text(*final(url))) <= utf8_len(url_text(*old(url))) + 3 * utf8_len(path@) + 4,
{
    url.set_path(path)
}

/// `url::Url::set_query`: replaces the query of the URL, or removes it for
/// `None`. The new query takes at most three bytes for each byte of `query`
/// after a `?`; the call panics where the text would pass `u32::MAX` bytes,
/// which the `requires` leaves out. The contract claims that the new text is a
/// function of the old text and `query`.
#[verifier::external_body]
pub(crate) fn set_url_query(url: &mut Url, query: Option<&str>)
    requires
        query matches Some(q) ==> utf8_len(url_text(*old(url))) + 3 * utf8_len(q@) + 1 <= u32::MAX,
    ensures
        url_text(*final(url)) == url_with_query(url_text(*old(url)), opt_text(query)),
{
    url.set_query(query)
}

} // verus!
