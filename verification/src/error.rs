use vstd::prelude::*;

verus! {

/// The failures a `store` call or client construction can surface.
///
/// Every failure is returned to the caller as one of these variants;
/// nothing is retried, logged or swallowed inside the library.
#[derive(Debug)]
pub enum StoreError {
    /// The endpoint string given at construction is not a valid absolute URL.
    Config,
    /// Resolving the upload path against the endpoint failed: a
    /// configuration bug, distinct from a network failure.
    Url,
    /// A transport-level failure (connection, non-JSON reply), with a
    /// human-readable description supplied by the caller's transport.
    Transport(String),
    /// The JSON reply did not hold a string-typed `cid` inside an
    /// object-typed `value`.
    ResponseShape,
}

impl StoreError {
    /// A short fixed description of the error variant.
    pub fn describe(&self) -> (r: &'static str)
        ensures
            self is Config ==> r@ == "invalid endpoint URL"@,
            self is Url ==> r@ == "cannot resolve upload path against endpoint"@,
            self is Transport ==> r@ == "transport failure"@,
            self is ResponseShape ==> r@ == "response held no string `cid` field"@,
    {
        match self {
            StoreError::Config => "invalid endpoint URL",
            StoreError::Url => "cannot resolve upload path against endpoint",
            StoreError::Transport(_) => "transport failure",
            StoreError::ResponseShape => "response held no string `cid` field",
        }
    }
}

} // verus!
