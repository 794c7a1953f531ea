//! A staking vault: depositors hand in a base asset and receive a share asset
//! that stands for a pro-rata claim on the pool.
//!
//! The crate holds the vault's rules: the conversion between assets and
//! shares, the write-once configuration that the setup reply completes, the
//! dispatch of inbound messages with its caller checks, and the version gate
//! of a migration. Storage, queries to the token contracts and the encoding
//! of messages belong to the host around it.

pub mod accounting;
pub mod config;
pub mod dispatch;
pub mod error;
pub mod hook;
pub mod migration;
pub mod params;
pub mod setup;
