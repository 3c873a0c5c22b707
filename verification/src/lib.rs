//! Request authentication and permission resolution.
//!
//! The crate turns a bearer credential into a verified identity with its
//! resolved grants, keeps cached grants coherent with revocation markers,
//! and describes the change relay as a state machine. It decides and
//! computes; reading and writing the stores is left to the caller.
//!
//! - [`credential`] reads the bearer credential.
//! - [`token_state`] checks a credential against its stored record, with
//!   [`secret`] for the secret of an API token and [`network`] for its
//!   allow-list.
//! - [`grants`] resolves the grants of an identity from its rows.
//! - [`cache`] decides whether cached grants are still current.
//! - [`authenticator`] puts these together into the course of one
//!   authentication, and [`protocol`] says what that course comes to.
//! - [`workspace`] decides the deletion of a workspace, which revokes
//!   cached grants.
//! - [`relay`] is the change relay.
//! - [`frontend`] holds what the dashboard pages decide.

pub mod authenticator;
pub mod cache;
pub mod clock;
pub mod config;
pub mod credential;
pub mod error;
pub mod frontend;
pub mod grants;
pub mod ids;
pub mod network;
pub mod protocol;
pub mod relay;
pub mod secret;
pub mod token_state;
pub mod workspace;
