//! Authentication and stateless sessions for a web application.
//!
//! The library hashes and checks passwords, issues and validates signed
//! session tokens, makes the tokens of confirmation links, sorts every
//! failure into one closed set of kinds, and decides what the login and
//! registration flows do next. It touches neither storage nor the network:
//! the caller looks records up, stores them and sends the mail, and hands
//! what came of it to the functions here as plain values.
//!
//! - [`error`]: the failure kinds, their messages and status classes.
//! - [`model`]: the records that storage holds.
//! - [`register`]: the registration form and its rules.
//! - [`phc`]: the shape of a stored password hash.
//! - [`passwd`]: hashing a password and checking one against a hash.
//! - [`claims`]: the payload of a token as named values, signed and opened.
//! - [`token`]: the claims of a session and their validation.
//! - [`link`]: the tokens of confirmation links.
//! - [`flow`]: login, session check and confirmation.
//! - [`registration`]: the registration flow, step by step.
//! - [`config`]: the settings that have to be there at the start.
//! - [`text`]: helpers on strings.
//!
//! Argon2, HMAC and the clock are not proved here; they are reached through
//! a few private functions whose contracts say what is taken on trust.

pub mod claims;
pub mod config;
pub mod error;
pub mod flow;
pub mod link;
pub mod model;
pub mod passwd;
pub mod phc;
pub mod register;
pub mod registration;
pub mod text;
pub mod token;
