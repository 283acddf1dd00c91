//! What the library takes on trust from the crates it lives with. Nothing
//! here is proved: each item says what is assumed of the outside code.

use vstd::prelude::*;
use containerd_shim::publisher::RemotePublisher;
use containerd_shim::{Config, StartOpts};
use wasmtime::Engine;

verus! {

/// `wasmtime::Engine`, the handle to the shared execution engine. The library
/// carries it and never looks inside.
#[verifier::external_type_specification]
#[verifier::external_body]
pub struct ExEngine(wasmtime::Engine);

/// `containerd_shim::publisher::RemotePublisher`, the event publisher of one
/// sandbox. The library carries it and never looks inside.
#[verifier::external_type_specification]
#[verifier::external_body]
pub struct ExRemotePublisher(containerd_shim::publisher::RemotePublisher);

/// `containerd_shim::StartOpts`, the options of one task launch: plain
/// public fields, read as they stand.
#[verifier::external_type_specification]
pub struct ExStartOpts(containerd_shim::StartOpts);

/// `containerd_shim::Config`, the settings that a shim hands back to its
/// runtime: plain public fields, read as they stand.
#[verifier::external_type_specification]
pub struct ExConfig(containerd_shim::Config);

/// Calls `Engine::clone`. An engine is a reference to its shared state and
/// nothing else, and its clone is one more reference to the same state, not a
/// new engine: the handle returned is the engine it was taken from.
#[verifier::external_body]
pub(crate) fn share_engine(engine: &Engine) -> (handle: Engine)
    ensures
        handle == *engine,
{
    engine.clone()
}

} // verus!
