//! Client library for the gpodder.net podcast-subscription synchronization
//! service.
//!
//! The library is organized as a thin, verified resource-mapping layer over
//! four outside capabilities: an HTTP client (`reqwest`), a JSON codec
//! (`serde_json`), a URL validator (`url`) and a calendar parser
//! (`chrono`). Everything the library itself
//! decides — which URL an operation requests, how request bodies are framed
//! as JSON text, how responses are mapped onto typed records, and the
//! natural-key identity of those records — is verified.

pub mod client;
pub mod datetime;
pub mod device;
pub mod episode;
pub mod error;
pub mod json;
pub mod order;
pub mod query;
pub mod subscription;
pub mod suggestion;
pub mod text;
pub mod urls;
pub mod wire;
