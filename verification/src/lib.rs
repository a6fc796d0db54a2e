//! Client core for cleaning untagged image versions out of a container registry.
//!
//! The library decides and the caller performs: it parses image references,
//! says which request to send next, judges each reply, and picks the versions
//! that may be deleted. It never touches the network itself.

pub mod cleanup;
pub mod decimal;
pub mod delete;
pub mod endpoint;
pub mod fetch;
pub mod github;
pub mod image;
pub mod request;
pub mod version;
