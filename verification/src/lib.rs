//! Core of a cookie-based web login flow: salted password hashing with
//! constant-time verification, a process-wide signing key, tamper-evident
//! session tokens carried as cookie values, and a user store that enforces
//! unique usernames and resists username enumeration.
//!
//! Anything that touches the network, the clock or the environment lives
//! outside this crate; the functions here take plain values (bytes, integers,
//! a caller-supplied notion of "now") and return plain values.

pub mod auth;
pub mod codec;
pub mod crypto;
pub mod errors;
pub mod hasher;
pub mod hexcode;
pub mod session;
pub mod user;
