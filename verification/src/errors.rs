//! Error taxonomy of the pipeline.
//!
//! Every error here is fatal by design: the pipeline is a one-shot batch job,
//! so a caller reports the message and terminates instead of retrying.

use vstd::prelude::*;
use vstd::string::StringExecFns;
use crate::numfmt::{spec_decimal, u32_decimal};

verus! {

/// A run was refused before any work started: the dataset-size selector is
/// outside the supported set, or the execute/prove flags conflict.
#[derive(Clone, Copy, Debug, PartialEq, Eq, Structural)]
pub enum ConfigError {
    UnsupportedLength(u32),
    ModeConflict,
}

/// The guest found the input stream out of order or short.
#[derive(Clone, Copy, Debug, PartialEq, Eq, Structural)]
pub enum ProtocolError {
    InputExhausted,
    SchemaMismatch,
}

/// Committed public values could not be decoded under the agreed layout.
#[derive(Clone, Copy, Debug, PartialEq, Eq, Structural)]
pub enum DecodeError {
    Malformed,
}

/// The local check of a generated proof rejected it.
#[derive(Clone, Copy, Debug, PartialEq, Eq, Structural)]
pub enum VerificationError {
    ProofRejected,
}

/// The diagnostic a run prints for each configuration error.
pub open spec fn config_error_message(e: ConfigError) -> Seq<char> {
    match e {
        ConfigError::UnsupportedLength(n) => "Unsupported length: "@ + spec_decimal(n as nat),
        ConfigError::ModeConflict => "Error: You must specify either --execute or --prove"@,
    }
}

impl ConfigError {
    /// The diagnostic for this error, exactly as the run reports it.
    pub fn message(&self) -> (s: String)
        ensures
            s@ == config_error_message(*self),
    {
        match self {
            ConfigError::UnsupportedLength(n) => {
                let mut s = String::from_str("Unsupported length: ");
                let digits = u32_decimal(*n);
                s.append(digits.as_str());
                s
            },
            ConfigError::ModeConflict => String::from_str(
                "Error: You must specify either --execute or --prove",
            ),
        }
    }
}

} // verus!
