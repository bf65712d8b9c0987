//! Deterministic, privacy-preserving fingerprints of financial transactions.
//!
//! A transaction is normalized into byte components and a date-time digest;
//! the digest goes through an oblivious pseudorandom function, evaluated with
//! a whole key or by a threshold of agents holding Shamir shares of it; the
//! components and the evaluated digest are squeezed into one element of the
//! scalar field of BN254.
pub mod agent;
pub mod compact;
pub mod components;
pub mod config;
pub mod error;
pub mod field;
pub mod fingerprint;
pub mod group;
pub mod health;
pub mod protocols;
pub mod secret_sharing;
pub mod service;
pub mod squeeze;
pub mod topology;
pub mod wide;
