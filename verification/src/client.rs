use vstd::prelude::*;
use vstd::string::StringExecFns;

use crate::endpoint::{joined_url, parsed_url, EndpointUrl};
use crate::error::StoreError;

verus! {

#[verifier::external_type_specification]
#[verifier::external_body]
pub struct ExReqwestClient(reqwest::Client);

#[verifier::external_type_specification]
#[verifier::external_body]
pub struct ExTokioFile(tokio::fs::File);

/// The fixed production endpoint used when no override is given.
pub open spec fn default_endpoint_text() -> Seq<char> {
    "https://api.nft.storage/"@
}

/// The fixed production endpoint as a string.
pub fn storage_url() -> (r: &'static str)
    ensures
        r@ == default_endpoint_text(),
{
    "https://api.nft.storage/"
}

/// What a caller hands to a `store` call: an open file holding the
/// asset, and descriptive fields. Only `image` is transmitted by the
/// current upload operation; `name`, `description` and `url` are
/// accepted for API symmetry but not sent.
pub struct Metadata {
    pub name: String,
    pub description: String,
    pub image: tokio::fs::File,
    pub url: Option<EndpointUrl>,
}

/// The storage client: an owned bearer token, the base endpoint, and a
/// pooled transport handle allocated once at construction. It holds no
/// mutable state, so one client may serve any number of concurrent
/// `store` calls.
pub struct NFTStorage {
    pub token: String,
    pub endpoint: EndpointUrl,
    pub http_client: reqwest::Client,
}

/// What a `store` call must do, decided before any network is touched.
pub enum StorePlan {
    /// The endpoint uses the local-file scheme: return this placeholder
    /// CID and touch no network.
    Offline { cid: String },
    /// POST the streamed file to `url` with `headers` — the content
    /// type and the bearer-token `Authorization` header — then extract
    /// the CID from the JSON reply.
    Post { url: String, headers: Vec<(String, String)> },
}

/// Relies on `reqwest::Client::new`: allocates a transport client with
/// its own connection pool, reusable across concurrent requests.
/// Nothing is claimed of the value.
#[verifier::external_body]
fn new_http_client() -> reqwest::Client {
    reqwest::Client::new()
}

impl NFTStorage {
    /// Builds a client from a bearer token and an optional endpoint
    /// override. Without an override the fixed production endpoint is
    /// parsed; construction fails only if that fixed string were not a
    /// valid absolute URL.
    pub fn new(token: &str, endpoint: Option<EndpointUrl>) -> (r: Result<NFTStorage, StoreError>)
        ensures
            match r {
                Ok(c) => c.token@ == token@ && match endpoint {
                    Some(e) => c.endpoint == e,
                    None => parsed_url(default_endpoint_text()) == Some(
                        (c.endpoint.text@, c.endpoint.scheme@),
                    ),
                },
                Err(err) => endpoint is None && parsed_url(default_endpoint_text()) is None
                    && err is Config,
            },
    {
        let endpoint_url = match endpoint {
            Some(e) => e,
            None => match EndpointUrl::parse(storage_url()) {
                Ok(e) => e,
                Err(_) => {
                    return Err(StoreError::Config);
                },
            },
        };
        Ok(NFTStorage {
            token: token.to_owned(),
            endpoint: endpoint_url,
            http_client: new_http_client(),
        })
    }

    /// The `Authorization` header derived from the stored token.
    pub fn authorization_header(&self) -> (r: (String, String))
        ensures
            r.0@ == "Authorization"@,
            r.1@ == "Bearer "@ + self.token@,
    {
        ("Authorization".to_owned(), "Bearer ".to_owned().concat(self.token.as_str()))
    }

    /// Decides a `store` call, up to the point where only the transport
    /// is left to act: a local-file-scheme endpoint short-circuits to
    /// the fixed placeholder CID with no network touched; any other
    /// endpoint yields the resolved upload URL and the full header set
    /// of the request — the content type and the bearer-token
    /// `Authorization` header. Fails exactly when the upload path
    /// cannot be resolved against the endpoint.
    pub fn plan_store(&self) -> (r: Result<StorePlan, StoreError>)
        ensures
            match r {
                Ok(p) => if self.endpoint.scheme@ == "file"@ {
                    p matches StorePlan::Offline { cid } && cid@ == "bafkrei"@
                } else {
                    p matches StorePlan::Post { url, headers }
                        && joined_url(self.endpoint.text@, "/upload"@) == Some(url@)
                        && headers@.len() == 2
                        && headers@[0].0@ == "Content-Type"@
                        && headers@[0].1@ == "application/octet-stream"@
                        && headers@[1].0@ == "Authorization"@
                        && headers@[1].1@ == "Bearer "@ + self.token@
                },
                Err(err) => self.endpoint.scheme@ != "file"@
                    && joined_url(self.endpoint.text@, "/upload"@) is None
                    && err is Url,
            },
    {
        if self.endpoint.is_file_scheme() {
            Ok(StorePlan::Offline { cid: "bafkrei".to_owned() })
        } else {
            match self.endpoint.join("/upload") {
                Ok(url) => {
                    let mut headers: Vec<(String, String)> = Vec::new();
                    headers.push(("Content-Type".to_owned(), "application/octet-stream".to_owned()));
                    headers.push(self.authorization_header());
                    Ok(StorePlan::Post { url, headers })
                },
                Err(err) => Err(err),
            }
        }
    }
}

} // verus!
