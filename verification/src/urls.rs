//! URLs, read and rewritten by the `url` crate. The library holds a parsed
//! URL as plain text: its serialization and the parts its logic reads.

use vstd::prelude::*;

verus! {

/// A parsed URL: its serialization, scheme, host (if any) and path.
pub struct UrlParts {
    pub text: String,
    pub scheme: String,
    pub host: Option<String>,
    pub path: String,
}

/// A parsed URL as plain text, or a message.
pub type UrlOrMessage = Result<(Seq<char>, Seq<char>, Option<Seq<char>>, Seq<char>), Seq<char>>;

/// A text, or a message.
pub type TextOrMessage = Result<Seq<char>, Seq<char>>;

/// What `url::Url::parse` makes of a text: serialization, scheme, host and
/// path, or the message of its error.
pub uninterp spec fn url_parse(raw: Seq<char>) -> UrlOrMessage;

/// `url::Url::parse`, with the parts read by `as_str`, `scheme`, `host_str`
/// and `path`.
#[verifier::external_body]
pub(crate) fn parse_url(raw: &str) -> (r: Result<UrlParts, String>)
    ensures
        r matches Ok(u) ==> url_parse(raw@) == UrlOrMessage::Ok((u.text@, u.scheme@, u.host.deep_view(), u.path@)),
        r matches Err(e) ==> url_parse(raw@) == UrlOrMessage::Err(e@),
{
    match url::Url::parse(raw) {
        Ok(u) => Ok(UrlParts {
            text: u.as_str().to_string(),
            scheme: u.scheme().to_string(),
            host: u.host_str().map(String::from),
            path: u.path().to_string(),
        }),
        Err(e) => Err(e.to_string()),
    }
}

/// The serialization of the URL `raw` with its path replaced by `path`
/// (`url::Url::set_path`), or the message of the parse error.
pub uninterp spec fn url_with_path(raw: Seq<char>, path: Seq<char>) -> TextOrMessage;

/// Parses `raw` and replaces its path with `url::Url::set_path`.
#[verifier::external_body]
pub(crate) fn set_url_path(raw: &str, path: &str) -> (r: Result<String, String>)
    ensures
        r matches Ok(t) ==> url_with_path(raw@, path@) == TextOrMessage::Ok(t@),
        r matches Err(e) ==> url_with_path(raw@, path@) == TextOrMessage::Err(e@),
{
    let mut u = url::Url::parse(raw).map_err(|e| e.to_string())?;
    u.set_path(path);
    Ok(u.to_string())
}

/// The serialization of `input` resolved against the URL `base`
/// (`url::Url::join`), or the message of the parse error.
pub uninterp spec fn url_joined(base: Seq<char>, input: Seq<char>) -> TextOrMessage;

/// Parses `base` and resolves `input` against it with `url::Url::join`.
#[verifier::external_body]
pub(crate) fn join_url(base: &str, input: &str) -> (r: Result<String, String>)
    ensures
        r matches Ok(t) ==> url_joined(base@, input@) == TextOrMessage::Ok(t@),
        r matches Err(e) ==> url_joined(base@, input@) == TextOrMessage::Err(e@),
{
    url::Url::parse(base).and_then(|b| b.join(input)).map(|u| u.to_string()).map_err(|e| e.to_string())
}

} // verus!
