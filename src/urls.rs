use url::Url;
use vstd::prelude::*;

verus! {

#[verifier::external_type_specification]
#[verifier::external_body]
pub struct ExUrl(url::Url);

/// The text of a URL, as `Url::as_str` gives it.
pub uninterp spec fn url_text(u: Url) -> Seq<char>;

/// The text of the URL that `Url::parse` reads from `s`, or `None` where it
/// refuses `s`; it depends on the text alone.
pub uninterp spec fn parsed_url_text(s: Seq<char>) -> Option<Seq<char>>;

/// The text of a URL after `Url::set_path` gave it this path.
pub uninterp spec fn with_path(url: Seq<char>, path: Seq<char>) -> Seq<char>;

/// The text of a URL after `key=value` was appended to its query.
pub uninterp spec fn with_pair(url: Seq<char>, key: Seq<char>, value: Seq<char>) -> Seq<char>;

/// The text of a URL after the value-less `key` was appended to its query.
pub uninterp spec fn with_key(url: Seq<char>, key: Seq<char>) -> Seq<char>;

/// Relies on `url::Url::parse`: reads an absolute URL, or says why it cannot.
#[verifier::external_body]
pub(crate) fn parse_url(s: &str) -> (r: Result<Url, url::ParseError>)
    ensures
        match r {
            Ok(u) => parsed_url_text(s@) == Some(url_text(u)),
            Err(_) => parsed_url_text(s@) is None,
        },
{
    Url::parse(s)
}

/// Relies on `Url::clone`: a copy of the URL, with the same text.
#[verifier::external_body]
pub(crate) fn copy_url(url: &Url) -> (r: Url)
    ensures
        url_text(r) == url_text(*url),
{
    url.clone()
}

/// Relies on `Url::set_path`: replaces the path of the URL.
#[verifier::external_body]
pub(crate) fn set_url_path(url: &mut Url, path: &str)
    ensures
        url_text(*final(url)) == with_path(url_text(*old(url)), path@),
{
    url.set_path(path)
}

/// Relies on `form_urlencoded::Serializer::append_pair`, reached through
/// `Url::query_pairs_mut`: appends `key=value` to the query of the URL.
#[verifier::external_body]
pub(crate) fn append_query_pair(url: &mut Url, key: &str, value: &str)
    ensures
        url_text(*final(url)) == with_pair(url_text(*old(url)), key@, value@),
{
    url.query_pairs_mut().append_pair(key, value);
}

/// Relies on `form_urlencoded::Serializer::append_key_only`, reached through
/// `Url::query_pairs_mut`: appends a value-less `key` to the query of the URL.
#[verifier::external_body]
pub(crate) fn append_query_key(url: &mut Url, key: &str)
    ensures
        url_text(*final(url)) == with_key(url_text(*old(url)), key@),
{
    url.query_pairs_mut().append_key_only(key);
}

/// The text of a URL after one query pair, with or without a value, was appended.
pub open spec fn with_query_pair(url: Seq<char>, pair: (Seq<char>, Option<Seq<char>>)) -> Seq<char> {
    match pair.1 {
        Some(value) => with_pair(url, pair.0, value),
        None => with_key(url, pair.0),
    }
}

/// The text of a URL after these query pairs were appended, in order.
pub open spec fn with_query(url: Seq<char>, pairs: Seq<(Seq<char>, Option<Seq<char>>)>) -> Seq<char>
    decreases pairs.len(),
{
    if pairs.len() == 0 {
        url
    } else {
        with_query_pair(with_query(url, pairs.drop_last()), pairs.last())
    }
}

} // verus!
