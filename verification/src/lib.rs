//! Index protocol client and asset resolution for a package manager that
//! installs binaries published as GitHub Releases.
//!
//! The library decides; it does not talk to anybody. What is sent to the
//! index server and to the release host, and what is made of their answers,
//! is settled here, and the answers themselves are handed in as plain values
//! by whoever owns the connection.
//!
//! - [`platform`] describes the machine that a package is installed on.
//! - [`template`] expands a package's naming scheme for that machine.
//! - [`glob`] compiles and matches the expanded scheme.
//! - [`picker`] chooses the asset of a release that the scheme describes.
//! - [`protocol`] reads the protocol version that client and server have to
//!   agree on.
//! - [`client`] is the index client: the handshake, and the requests for
//!   package documents and for the list of package names.
//! - [`metadata`] holds what the index says of a package, and prepares the
//!   lookup of its latest release.
//! - [`credential`] wraps the token that authenticates the client.
//! - [`auth`], [`install`] and [`config`] hold the decisions of the commands
//!   that are built on the client.

pub mod auth;
pub mod client;
pub mod config;
pub mod credential;
pub mod defaults;
pub mod error;
pub mod glob;
pub mod install;
pub mod metadata;
pub mod picker;
pub mod platform;
pub mod protocol;
pub mod template;
pub mod text;
