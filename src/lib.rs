//! Wallet-side core of the identity and transaction layer: the uniform
//! response contract of every exposed operation, the verify-key index map,
//! the failure checks of the scalar and credential identifier derivations,
//! and the baker key request handling.
pub mod baker;
pub mod derivation;
pub mod facade;
pub mod fields;
pub mod key_set;
