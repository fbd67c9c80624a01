//! The core of a password manager for the command line: the key
//! hierarchy, the sealed records, the session that caches the master key,
//! one-time passwords, and the naming of the store's files and backups.
//!
//! Secrets lie on disk sealed under a master key of 32 bytes. The master
//! key is wrapped under a key derived from the master password, so the
//! password can change without sealing every record anew. The library
//! decides and computes; reading and writing files, prompting and the
//! clipboard are the caller's part.

pub mod backup;
pub mod clipboard;
pub mod clock;
pub mod codec;
pub mod config;
pub mod crypto;
pub mod entry;
pub mod otp;
pub mod prompt;
pub mod session;
pub mod store;
pub mod text;
