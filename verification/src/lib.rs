//! Identity, authentication and authorization models of a federated
//! social-network service, with machine-checked contracts.
//!
//! The heart of the crate is [`user`]: the states a user passes through, from
//! looked up to authenticated to administrator, and from unverified to
//! verified, each a type of its own. What those types read and change lives
//! in a [`store::Store`]. The remaining modules hold the plain records of the
//! service.

pub mod base_actor;
pub mod base_post;
pub mod file;
pub mod link;
pub mod sql_types;
pub mod store;
pub mod text;
pub mod timer;
pub mod timestamp;
pub mod user;
