//! Verified core of a key broker service and its client: request validation,
//! resource addressing, policy and resource submission, evidence plumbing.
pub mod client;
pub mod config;
pub mod encoding;
pub mod error;
pub mod evidence;
pub mod owner;
pub mod ownership;
pub mod repository;
pub mod set_resource;
pub mod text;
