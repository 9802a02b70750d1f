//! A small keypair, contact and multi-recipient encryption library built on age.
//!
//! Storage is kept at the edge: the library computes which directories to create and
//! which texts to write, and the caller performs them. Key material is handled as its
//! textual encoding, checked by age.
pub mod commands;
pub mod encrypt_lib;
pub mod errors;
pub mod logger;
