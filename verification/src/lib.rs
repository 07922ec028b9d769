//! Issuing and checking API credentials for the registered users of a small
//! service.
//!
//! - `hasher` hashes passwords and API keys with Argon2 and checks a secret
//!   against a stored digest.
//! - `keygen` draws API keys of 32 random letters and digits.
//! - `store` says what the workflows ask of the user record store and what
//!   the store owes them; `memory` is a store in memory that keeps to it.
//! - `registration` and `authentication` are the two workflows, each a state
//!   machine that decides what happens next and leaves it to its driver to
//!   carry questions to the store and answers back.
//! - `registration_runs` and `authentication_runs` say what holds of every
//!   run of a workflow against a store, `races` what holds of two
//!   registrations that run at the same time.
//! - `user` holds the first and the last step of a registration as the HTTP
//!   side sees them, `database` the failures, `models` the records.

pub mod authentication;
pub mod authentication_runs;
pub mod database;
pub mod hasher;
pub mod keygen;
pub mod memory;
pub mod models;
pub mod races;
pub mod registration;
pub mod registration_runs;
pub mod store;
pub mod user;
