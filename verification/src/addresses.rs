//! Addresses of Documents.
use vstd::prelude::*;

verus! {

/// The address of a Document.
pub struct NavigationUrl {
    /// The address as it is written.
    pub text: String,
    /// The origin that it belongs to, as it is written.
    pub origin: String,
}

/// The address and the origin that the url crate reads in a text, both as it
/// writes them, where the text is an absolute address.
pub uninterp spec fn read_url(text: Seq<char>) -> Option<(Seq<char>, Seq<char>)>;

/// Reads an address by `url::Url::parse` and takes from the result what
/// `Url::as_str` and `Url::origin` with `Origin::ascii_serialization` write.
/// What the crate reads depends on the text alone and is named `read_url`; the
/// grammar of addresses is not stated.
#[verifier::external_body]
fn parse_url(text: &str) -> (parts: Option<(String, String)>)
    ensures
        match parts {
            Some((address, origin)) => read_url(text@) == Some((address@, origin@)),
            None => read_url(text@) is None,
        },
{
    let url = url::Url::parse(text).ok()?;
    Some((url.as_str().to_owned(), url.origin().ascii_serialization()))
}

/// Reads an absolute address.
pub fn read_navigation_url(text: &str) -> (url: Option<NavigationUrl>)
    ensures
        match url {
            Some(url) => read_url(text@) == Some((url.text@, url.origin@)),
            None => read_url(text@) is None,
        },
{
    match parse_url(text) {
        Some((text, origin)) => Some(NavigationUrl { text, origin }),
        None => None,
    }
}

} // verus!
