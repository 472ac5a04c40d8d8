//! A minimal verified client library for a content-addressed storage
//! service: it builds authenticated upload requests, decides when to
//! short-circuit to an offline placeholder, and extracts the content
//! identifier from the service's reply.

mod claim;
mod client;
mod endpoint;
mod error;
mod response;

pub use claim::JWTClaim;
pub use client::{Metadata, NFTStorage, StorePlan};
pub use endpoint::EndpointUrl;
pub use error::StoreError;
pub use response::{ResponseValue, UploadResponse};
