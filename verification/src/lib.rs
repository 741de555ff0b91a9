//! Authenticated encryption of secrets at rest and a careful update protocol
//! for a single configuration file.
//!
//! - `encryption`: the cipher store, which owns one 256-bit key and seals
//!   strings under it with AES-256-GCM, and `envelope`, the form in which a
//!   sealed string travels.
//! - `update`: the safe configuration writer, which compares, backs up and
//!   then writes, and `config`, the settings and the policy it runs under.
//! - `aead`, `codec`, `json` and `clock` hold the calls into other crates, with
//!   the contracts that the proofs of the rest stand on.
//! - `error`: the kinds of failure.
//!
//! The library touches no file and takes no lock. Its caller reads and writes
//! the files, and hands it plain values.

pub mod aead;
pub mod clock;
pub mod codec;
pub mod config;
pub mod encryption;
pub mod envelope;
pub mod error;
pub mod json;
pub mod update;

pub use config::AppConfig;
