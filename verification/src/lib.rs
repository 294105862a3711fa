//! Unsigned transactions for a ledger of compressed assets, and the
//! digests and addresses that identify a leaf of it.
//!
//! Nothing here signs, sends or stores anything: every function turns the
//! values it is given into an instruction, into the bytes of an unsigned
//! transaction, into a digest or into an address.
//!
//! - [`types`] and [`boundary`] take inputs as a caller supplies them and
//!   refuse what is malformed before anything is built.
//! - [`metadata`] and [`encoding`] hold the description of an asset and
//!   the byte layout in which the remote program reads it.
//! - [`utils`] computes the digests of a leaf and the address of an asset.
//! - [`instructions`] builds the three operations; [`transaction`] holds
//!   instructions and transactions as plain data and encodes them.
//! - [`sdk`] is where the library calls the Solana crates; what it states
//!   of them is taken on trust.
//! - [`laws`] states what holds of all of this whatever the input.

pub mod boundary;
pub mod encoding;
pub mod error;
pub mod instructions;
pub mod laws;
pub mod metadata;
pub mod programs;
pub mod pubkey;
pub mod sdk;
pub mod status;
pub mod text;
pub mod transaction;
pub mod types;
pub mod utils;
