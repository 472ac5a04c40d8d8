use vstd::prelude::*;

use crate::error::StoreError;

verus! {

/// What `url::Url::parse` makes of a string: `None` when the string is
/// not an absolute URL, otherwise the serialization of the parsed URL
/// together with its scheme. Parsing is a pure function of the input,
/// so the result may be named without being written out.
pub uninterp spec fn parsed_url(s: Seq<char>) -> Option<(Seq<char>, Seq<char>)>;

/// What `url::Url::join` makes of a base URL's serialization and a
/// path: `None` when resolution fails, otherwise the serialization of
/// the resolved URL.
pub uninterp spec fn joined_url(base: Seq<char>, path: Seq<char>) -> Option<Seq<char>>;

#[verifier::external_type_specification]
#[verifier::external_body]
pub struct ExUrlParseError(url::ParseError);

/// An absolute URL, held as the plain values of it that the library's
/// logic reads: its full serialization and its scheme. The `url` crate
/// does the parsing and the path resolution; [`EndpointUrl::parse`] is
/// the honest way to obtain one.
pub struct EndpointUrl {
    /// The serialization of the URL, exactly `url::Url::as_str`.
    pub text: String,
    /// The scheme of the URL (lower-cased, without the `:`), exactly
    /// `url::Url::scheme`.
    pub scheme: String,
}

/// Relies on `url::Url::parse`: it accepts exactly the well-formed
/// absolute URLs, deterministically in the input string; `Url::as_str`
/// returns the serialization and `Url::scheme` the lower-cased scheme
/// of the parsed URL.
#[verifier::external_body]
fn parse_url(s: &str) -> (r: Result<EndpointUrl, url::ParseError>)
    ensures
        match r {
            Ok(e) => parsed_url(s@) == Some((e.text@, e.scheme@)),
            Err(_) => parsed_url(s@) is None,
        },
{
    match url::Url::parse(s) {
        Ok(u) => {
            let text = u.as_str().to_owned();
            let scheme = u.scheme().to_owned();
            Ok(EndpointUrl { text, scheme })
        }
        Err(err) => Err(err),
    }
}

/// Relies on `url::Url::parse` and `url::Url::join`: both are pure
/// functions of their string inputs, so what `join` makes of a parsed
/// base URL and a path is a function of the base's serialization and
/// the path. The base text is parsed afresh here; a failure to parse it
/// counts as a failed resolution.
#[verifier::external_body]
fn join_url(base: &str, path: &str) -> (r: Result<String, url::ParseError>)
    ensures
        match r {
            Ok(t) => joined_url(base@, path@) == Some(t@),
            Err(_) => joined_url(base@, path@) is None,
        },
{
    match url::Url::parse(base).and_then(|u| u.join(path)) {
        Ok(u) => Ok(u.as_str().to_owned()),
        Err(err) => Err(err),
    }
}

impl EndpointUrl {
    /// Parses an endpoint URL string. Returns `Ok` exactly when the URL
    /// library accepts the string as an absolute URL, and then carries
    /// the parsed URL's serialization and scheme.
    pub fn parse(s: &str) -> (r: Result<EndpointUrl, StoreError>)
        ensures
            match r {
                Ok(e) => parsed_url(s@) == Some((e.text@, e.scheme@)),
                Err(err) => parsed_url(s@) is None && err is Config,
            },
    {
        match parse_url(s) {
            Ok(e) => Ok(e),
            Err(_) => Err(StoreError::Config),
        }
    }

    /// Resolves `path` against this URL by the standard URL-join rules.
    /// Returns `Ok` exactly when resolution succeeds.
    pub fn join(&self, path: &str) -> (r: Result<String, StoreError>)
        ensures
            match r {
                Ok(t) => joined_url(self.text@, path@) == Some(t@),
                Err(err) => joined_url(self.text@, path@) is None && err is Url,
            },
    {
        match join_url(self.text.as_str(), path) {
            Ok(t) => Ok(t),
            Err(_) => Err(StoreError::Url),
        }
    }

    /// Whether the URL uses the local-file scheme: the signal that a
    /// `store` call must stay offline.
    pub fn is_file_scheme(&self) -> (r: bool)
        ensures
            r == (self.scheme@ == "file"@),
    {
        let file_scheme: String = "file".to_owned();
        self.scheme == file_scheme
    }
}

} // verus!
