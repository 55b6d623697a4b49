//! Proof backend dispatch for the on-chain-oriented flow.
//!
//! Both backends run the identical guest program and commit the identical
//! public-value layout; they differ only in proof format. The dispatcher is a
//! pure switch with no shared state between the choices.

use vstd::prelude::*;

verus! {

/// The proof systems with an on-chain verifier ABI.
#[derive(Clone, Copy, Debug, PartialEq, Eq, Structural)]
pub enum ProofSystem {
    Plonk,
    Groth16,
}

/// The fixture file name for a backend; the last write for a backend wins.
pub open spec fn fixture_file_name_spec(s: ProofSystem) -> Seq<char> {
    match s {
        ProofSystem::Plonk => "plonk-fixture.json"@,
        ProofSystem::Groth16 => "groth16-fixture.json"@,
    }
}

impl ProofSystem {
    /// The name of the fixture file this backend's artifact is written to.
    pub fn fixture_file_name(&self) -> (r: &'static str)
        ensures
            r@ == fixture_file_name_spec(*self),
    {
        match self {
            ProofSystem::Plonk => "plonk-fixture.json",
            ProofSystem::Groth16 => "groth16-fixture.json",
        }
    }
}

impl Default for ProofSystem {
    /// The fixture-generation binary proves with Groth16 unless told otherwise.
    fn default() -> (r: Self)
        ensures
            r == ProofSystem::Groth16,
    {
        ProofSystem::Groth16
    }
}

} // verus!
