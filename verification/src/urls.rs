//! URL handling through the `url` crate.
use vstd::prelude::*;

verus! {

/// The serialization of the URL that `url::Url::parse` reads from `input`,
/// or `None` where it refuses `input`.
pub uninterp spec fn parsed_url(input: Seq<char>) -> Option<Seq<char>>;

/// The serialization of the URL whose serialization is `url` after
/// `url::Url::set_path(path)`.
pub uninterp spec fn url_with_path(url: Seq<char>, path: Seq<char>) -> Seq<char>;

/// The URL type of the `url` crate.
#[verifier::external_type_specification]
#[verifier::external_body]
pub struct ExUrl(url::Url);

/// The error of `url::Url::parse`.
#[verifier::external_type_specification]
#[verifier::external_body]
pub struct ExUrlParseError(url::ParseError);

/// A parsed URL together with its serialization. Only `parse_url` and
/// `set_url_path` make or change one, and each leaves the kept serialization
/// equal to the URL's own.
pub struct WebUrl {
    url: url::Url,
    text: String,
}

impl WebUrl {
    /// The URL's serialization.
    pub closed spec fn spec_text(&self) -> Seq<char> {
        self.text@
    }

    /// The URL's serialization.
    pub fn as_str(&self) -> (r: &str)
        ensures
            r@ == self.spec_text(),
    {
        self.text.as_str()
    }
}

/// Calls `url::Url::parse` and keeps the URL with its serialization
/// (`Display`). Claimed: it succeeds exactly where the name `parsed_url` is
/// `Some`, and then the serialization is that name's. Nothing more is claimed
/// of the serialization: percent-encoding and normalisation are the crate's.
#[verifier::external_body]
pub(crate) fn parse_url(input: &str) -> (r: Result<WebUrl, url::ParseError>)
    ensures
        r is Ok <==> parsed_url(input@) is Some,
        r matches Ok(u) ==> parsed_url(input@) == Some(u.spec_text()),
{
    match url::Url::parse(input) {
        Ok(url) => {
            let text = url.to_string();
            Ok(WebUrl { url, text })
        },
        Err(e) => Err(e),
    }
}

/// Calls `url::Url::set_path` and refreshes the kept serialization. Claimed:
/// the new serialization is the name `url_with_path` of the old one and the
/// path; how the path is encoded is the crate's.
#[verifier::external_body]
pub(crate) fn set_url_path(url: &mut WebUrl, path: &str)
    ensures
        final(url).spec_text() == url_with_path(old(url).spec_text(), path@),
{
    url.url.set_path(path);
    url.text = url.url.to_string();
}

} // verus!
