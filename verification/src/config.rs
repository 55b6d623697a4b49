//! Run configuration: the dataset-size selector, the fixture sources it
//! resolves to, and the execute/prove mode choice.

use vstd::prelude::*;
use crate::backend::{fixture_file_name_spec, ProofSystem};
use crate::errors::ConfigError;

verus! {

/// The dataset-size selector used when none is given on the command line.
pub const DEFAULT_LENGTH: u32 = 16;

/// The closed set of supported dataset sizes.
pub open spec fn supported_length(len: u32) -> bool {
    len == 16 || len == 256 || len == 1024 || len == 2048
}

/// The verifying-key source, shared by every selector.
pub open spec fn key_source() -> Seq<char> {
    "fixtures/zktls/verifying_k256.key"@
}

/// The dataset source for a supported selector; the size controls only the
/// number of attestation records in the file.
pub open spec fn data_source(len: u32) -> Seq<char>
    recommends
        supported_length(len),
{
    if len == 16 {
        "fixtures/zktls/data/bench16.json"@
    } else if len == 256 {
        "fixtures/zktls/data/bench256.json"@
    } else if len == 1024 {
        "fixtures/zktls/data/bench1024.json"@
    } else {
        "fixtures/zktls/data/bench2048.json"@
    }
}

/// Where the inputs of one run are read from.
#[derive(Clone, Copy, Debug)]
pub struct InputSources {
    pub key_path: &'static str,
    pub data_path: &'static str,
}

/// Executable test for membership in the supported set.
pub fn is_supported_length(len: u32) -> (r: bool)
    ensures
        r == supported_length(len),
{
    len == 16 || len == 256 || len == 1024 || len == 2048
}

/// Resolves a dataset-size selector to its two input sources. Every entry
/// point shares this single lookup, so the key/data pairing cannot drift.
pub fn resolve_sources(length: u32) -> (r: Result<InputSources, ConfigError>)
    ensures
        supported_length(length) ==> (r matches Ok(s) && s.key_path@ == key_source()
            && s.data_path@ == data_source(length)),
        !supported_length(length) ==> r == Err::<InputSources, ConfigError>(
            ConfigError::UnsupportedLength(length),
        ),
{
    match length {
        16 => Ok(
            InputSources {
                key_path: "fixtures/zktls/verifying_k256.key",
                data_path: "fixtures/zktls/data/bench16.json",
            },
        ),
        256 => Ok(
            InputSources {
                key_path: "fixtures/zktls/verifying_k256.key",
                data_path: "fixtures/zktls/data/bench256.json",
            },
        ),
        1024 => Ok(
            InputSources {
                key_path: "fixtures/zktls/verifying_k256.key",
                data_path: "fixtures/zktls/data/bench1024.json",
            },
        ),
        2048 => Ok(
            InputSources {
                key_path: "fixtures/zktls/verifying_k256.key",
                data_path: "fixtures/zktls/data/bench2048.json",
            },
        ),
        _ => Err(ConfigError::UnsupportedLength(length)),
    }
}

/// The two ways the host can run the guest.
#[derive(Clone, Copy, Debug, PartialEq, Eq, Structural)]
pub enum RunMode {
    Execute,
    Prove,
}

/// Chooses the run mode from the two command-line flags; exactly one of them
/// must be set.
pub fn select_mode(execute: bool, prove: bool) -> (r: Result<RunMode, ConfigError>)
    ensures
        execute && !prove ==> r == Ok::<RunMode, ConfigError>(RunMode::Execute),
        prove && !execute ==> r == Ok::<RunMode, ConfigError>(RunMode::Prove),
        execute == prove ==> r == Err::<RunMode, ConfigError>(ConfigError::ModeConflict),
{
    if execute && !prove {
        Ok(RunMode::Execute)
    } else if prove && !execute {
        Ok(RunMode::Prove)
    } else {
        Err(ConfigError::ModeConflict)
    }
}

/// Everything the run binary decides before touching the filesystem or the
/// prover.
#[derive(Clone, Copy, Debug)]
pub struct RunPlan {
    pub mode: RunMode,
    pub sources: InputSources,
}

/// Plans one run: the mode flags are checked first, then the size selector,
/// matching the order in which the run binary reports errors.
pub fn plan_run(execute: bool, prove: bool, length: u32) -> (r: Result<RunPlan, ConfigError>)
    ensures
        execute == prove ==> r == Err::<RunPlan, ConfigError>(ConfigError::ModeConflict),
        execute != prove && !supported_length(length) ==> r == Err::<RunPlan, ConfigError>(
            ConfigError::UnsupportedLength(length),
        ),
        execute != prove && supported_length(length) ==> (r matches Ok(p)
            && p.mode == (if execute { RunMode::Execute } else { RunMode::Prove })
            && p.sources.key_path@ == key_source()
            && p.sources.data_path@ == data_source(length)),
{
    let mode = match select_mode(execute, prove) {
        Ok(m) => m,
        Err(e) => { return Err(e); },
    };
    let sources = match resolve_sources(length) {
        Ok(s) => s,
        Err(e) => { return Err(e); },
    };
    Ok(RunPlan { mode, sources })
}

/// Everything the fixture-generation flow decides before proving: the chosen
/// backend, the input sources, and the fixture file that backend's artifact
/// overwrites.
#[derive(Clone, Copy, Debug)]
pub struct EvmPlan {
    pub system: ProofSystem,
    pub sources: InputSources,
    pub fixture_file: &'static str,
}

/// Plans one fixture-generating run for an on-chain-oriented backend.
pub fn plan_evm(system: ProofSystem, length: u32) -> (r: Result<EvmPlan, ConfigError>)
    ensures
        !supported_length(length) ==> r == Err::<EvmPlan, ConfigError>(
            ConfigError::UnsupportedLength(length),
        ),
        supported_length(length) ==> (r matches Ok(p) && p.system == system
            && p.sources.key_path@ == key_source()
            && p.sources.data_path@ == data_source(length)
            && p.fixture_file@ == fixture_file_name_spec(system)),
{
    let sources = match resolve_sources(length) {
        Ok(s) => s,
        Err(e) => { return Err(e); },
    };
    Ok(EvmPlan { system, sources, fixture_file: system.fixture_file_name() })
}

} // verus!
