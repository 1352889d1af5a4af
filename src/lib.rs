//! Proof of control of a payment address by challenge and response.
//!
//! A server issues a time-bound challenge tagged with its secret; the client
//! signs the challenge's digest with the Ed25519 key behind its address; the
//! server checks the tag, the age and the signature against the key that the
//! address names. Nothing is stored between the two steps.
pub mod address;
pub mod bytes;
pub mod challenge;
pub mod config;
pub mod digest;
pub mod primitives;
pub mod responses;
pub mod secret_backend;
pub mod signing;
pub mod trulioo;
