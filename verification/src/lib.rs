//! Authentication and authorization decisions for a package registry.
//!
//! For every request the registry has to know whether the caller may read
//! and whether they may write. This crate takes those decisions and proves
//! what it decides; it sends nothing over the network and reads nothing from
//! disk. Where a decision needs an answer from outside, from GitHub or from
//! the package index, the deciding function is handed the answers received
//! so far and names the next question to ask.
//!
//! - [`config`]: the authentication mode and the settings of a deployment.
//! - [`bearer`]: the token that a request presents.
//! - [`api_key`]: the comparison of a token with a configured key.
//! - [`github`]: the verification of a token against GitHub.
//! - [`index_url`]: the address of the index repository.
//! - [`access`]: the access of a request for reading and for writing.
//! - [`permission`]: who may write the packages of a scope.
//! - [`error`]: why a request is refused.
//! - [`text`]: comparisons of strings and characters.

pub mod access;
pub mod api_key;
pub mod bearer;
pub mod config;
pub mod error;
pub mod github;
pub mod index_url;
pub mod permission;
pub mod text;
