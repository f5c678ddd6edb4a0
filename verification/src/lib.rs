//! Request-pipeline primitives shared by every endpoint of a small CRUD API:
//! signed, expiring authentication tokens; structured payload validation that
//! aggregates every field failure; a translator that maps named persistence
//! constraint violations to domain conflict errors; and a closed error
//! taxonomy with a fixed HTTP status and JSON rendering rule.

pub mod articles;
pub mod auth;
pub mod config;
pub mod domain;
pub mod error;
pub mod password;
pub mod response;
pub mod rules;
pub mod search;
pub mod token;
pub mod translate;
pub mod users;
pub mod validate;
