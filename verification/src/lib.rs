//! Authentication and session core of the Pokédex service.
//!
//! The crate decides; its caller reads the clock, the request and the user
//! store, and sends what was decided.
//!
//! - [`password`] hashes and verifies passwords (Argon2).
//! - [`token`] issues and verifies access, refresh and reset tokens (HS256),
//!   on top of the signing boundary in [`jwt`].
//! - [`extract`] finds the bearer token and the cookies of a request.
//! - [`identity`] resolves the user of a request.
//! - [`session`] holds the flows: login, refresh, logout, profile, password
//!   change and password reset; [`cookies`] writes the cookies they set.
//! - [`users`] holds the account flows, [`response`] the statuses and
//!   messages, [`models`] the request bodies, [`config`] the configuration.
//! - [`text`] and [`decimal`] are the character-level building blocks.
//!
//! Contracts are stated over `Seq<char>` views of strings. What the crate
//! believes of Argon2, of the token codec and of the identifier parser is
//! stated on the private functions that call them, in [`password`] and
//! [`jwt`], and nowhere else.

pub mod config;
pub mod cookies;
pub mod decimal;
pub mod extract;
pub mod identity;
pub mod jwt;
pub mod models;
pub mod password;
pub mod response;
pub mod session;
pub mod text;
pub mod token;
pub mod users;
