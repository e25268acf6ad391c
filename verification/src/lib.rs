//! A verified decoder for the raw instructions of one on-chain swap program.
//!
//! A raw instruction carries a program identifier, an account list, and an
//! opaque byte payload. The decoder classifies the payload into one of the
//! known command and event variants by its discriminator: events are keyed by
//! a 16-byte key (a shared marker plus an event tag) that is probed before the
//! 8-byte command keyspace, and one legacy wire shape of the Buy command is
//! normalized before any lookup. Anything unrecognized, malformed or foreign
//! is declined with an absent result rather than an error.

pub mod decoder;
pub mod instructions;
pub mod keys;
pub mod laws;
