//! Verified core of a zkTLS attestation proving pipeline.
//!
//! The pipeline loads a verifying key and an attestation dataset, feeds them
//! over an ordered input stream to a guest commitment program, and turns the
//! resulting proof into an on-chain-ready fixture. The hard part is the
//! boundary protocol between host and guest: write order must equal read
//! order, and the commit order of the public values defines the binary layout
//! every downstream decoder must match. These modules state and prove that
//! protocol; the proving backend itself and all file and CLI handling live
//! outside the library.

pub mod backend;
pub mod codec;
pub mod config;
pub mod errors;
pub mod fixture;
pub mod numfmt;
pub mod stream;
