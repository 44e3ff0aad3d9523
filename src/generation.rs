//! One generation of the loaded unit: compiled unit, execution context,
//! instance and entry point, built together and kept together.

use vstd::prelude::*;
use wasmtime::{Engine, Instance, Module};
use crate::runtime::{bind_entry, call_entry, compile, instantiate, new_store, Bound, EntryFunc};

verus! {

/// Why a bound export could not be had from a compiled unit.
#[derive(Clone, Copy, Debug, PartialEq, Eq, Structural)]
pub enum BindFailure {
    /// The unit did not instantiate (its start function trapped, or it
    /// needs imports).
    Instantiation,
    /// No function that takes two 64-bit integers to one is exported under
    /// the expected name.
    Export,
}

/// Why a generation could not be built.
#[derive(Clone, Copy, Debug, PartialEq, Eq, Structural)]
pub enum ReloadFailure {
    /// The artifact is missing, unreadable, or not a valid unit.
    Load,
    /// The unit loaded but its entry point could not be bound.
    Bind(BindFailure),
}

/// Why a call of the entry point failed.
#[derive(Clone, Copy, Debug, PartialEq, Eq, Structural)]
pub enum InvocationFailure {
    /// The unit trapped or ran out of a resource during the call.
    Trap,
}

/// A complete generation. Its fields are private and only `build` makes
/// one, so the compiled unit, the context, the instance and the entry point
/// of a generation always come from the same artifact.
pub struct Generation {
    module: Module,
    bound: Bound,
    artifact: Ghost<Seq<u8>>,
    export: Ghost<Seq<char>>,
}

impl Generation {
    /// The artifact that this generation was built from.
    pub closed spec fn artifact(&self) -> Seq<u8> {
        self.artifact@
    }

    /// The name under which the entry point was exported.
    pub closed spec fn export(&self) -> Seq<char> {
        self.export@
    }

    /// The parts of the generation that no call changes: the compiled unit,
    /// the instance and the entry point.
    pub closed spec fn binding(&self) -> (Module, Instance, EntryFunc) {
        (self.module, self.bound.binding().0, self.bound.binding().1)
    }

    /// Compiles `artifact`, instantiates it in a fresh context and binds its
    /// export `export` as the entry point; the first step that fails gives
    /// the error.
    pub fn build(engine: &Engine, artifact: &[u8], export: &str) -> (r: Result<Generation, ReloadFailure>)
        ensures
            r matches Ok(g) ==> g.artifact() == artifact@ && g.export() == export@,
    {
        let module = match compile(engine, artifact) {
            Ok(m) => m,
            Err(_) => return Err(ReloadFailure::Load),
        };
        let unit = match instantiate(new_store(engine), &module) {
            Ok(u) => u,
            Err(_) => return Err(ReloadFailure::Bind(BindFailure::Instantiation)),
        };
        let bound = match bind_entry(unit, export) {
            Ok(b) => b,
            Err(_) => return Err(ReloadFailure::Bind(BindFailure::Export)),
        };
        Ok(Generation {
            module,
            bound,
            artifact: Ghost(artifact@),
            export: Ghost(export@),
        })
    }

    /// Calls the entry point with `(x, y)` in this generation's context. The
    /// call stays within the generation: only the context changes.
    pub fn invoke(&mut self, x: u64, y: u64) -> (r: Result<u64, InvocationFailure>)
        ensures
            final(self).artifact() == old(self).artifact(),
            final(self).export() == old(self).export(),
            final(self).binding() == old(self).binding(),
    {
        match call_entry(&mut self.bound, x, y) {
            Ok(v) => Ok(v),
            Err(_) => Err(InvocationFailure::Trap),
        }
    }
}

} // verus!
