//! An authenticating API gateway in front of an identity service and a file
//! service: the decisions it takes on every request, stated and proved.
//!
//! - `envelope`: the one response type of every handler and its status table.
//! - `middleware`: the bearer-credential check in front of protected routes.
//! - `file_client`: the file service's requests and how its replies are read.
//! - `identity_client`: how the identity service's RPC outcomes are read.
//! - `identity_service`: login and token validation, step by step.
//! - `oauth`: the identity provider's login URL.
//! - `routes`: which routes exist and which are protected.
//! - `config`: settings from environment values.
//! - `dto`, `upstream`: the data the gateway carries.
//! - `text`: decimal numbers, percent-encoding and prefixes.

pub mod config;
pub mod dto;
pub mod envelope;
pub mod file_client;
pub mod identity_client;
pub mod identity_service;
pub mod middleware;
pub mod oauth;
pub mod routes;
pub mod text;
pub mod upstream;

pub use envelope::{ApiResponse, ServiceResponse};
