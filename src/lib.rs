//! A client library for a cloud file store: the protocol that creates a file
//! or folder (metadata, then content, then links) and the cursor that walks a
//! paged listing. Callers perform the network calls; the library decides what
//! to send and what a reply means.

pub mod lister;
pub mod request;
pub mod resource;
pub mod writer;
