//! Verification of sampled cells of a block whose data is erasure coded and
//! committed to row by row.
//!
//! A light client samples a block: it asks a node for a few cells of the block's
//! data matrix and gets, for each, the claimed value and a proof that opens the
//! commitment of the cell's row at the cell's column. This crate does everything
//! around the pairing check that decides such an opening:
//!
//! - [`header`] reads row count, column count and commitment bytes out of a
//!   header extension of any version;
//! - [`matrix`] validates the counts and tells whether a position lies inside;
//! - [`commitments`] cuts the commitment bytes into one commitment per row;
//! - [`data`] cuts the node's answer into cells, in the order of the request;
//! - [`opening`] says what is to be checked for a cell and what the answer means;
//! - [`block`] does this for all cells of a block, one check at a time, and
//!   [`machine`] says which states such a verification goes through.
//!
//! The pairing check itself is not here. Whoever uses the crate passes it in as a
//! function, or drives [`block::BlockVerifier`] and has each claim checked where
//! and how it likes. Every contract holds whatever that check answers.

pub mod block;
pub mod bytes;
pub mod commitments;
pub mod config;
pub mod data;
pub mod error;
pub mod header;
pub mod machine;
pub mod matrix;
pub mod opening;
