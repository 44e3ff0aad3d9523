//! The module state aggregate: the one live generation, replaced whole on
//! each successful reload and left untouched by a failed one.

use vstd::prelude::*;
use wasmtime::Engine;
use crate::generation::{Generation, InvocationFailure, ReloadFailure};
use crate::runtime::{default_engine, share_engine};

verus! {

/// The live state: the shared engine, the name of the entry point's export,
/// and the current generation, with a count of the generations installed
/// since startup.
pub struct WasmState {
    engine: Engine,
    export: String,
    current: Generation,
    installed: Ghost<nat>,
}

/// The live generation binds the export that the state is configured with.
pub open spec fn well_formed(s: WasmState) -> bool {
    s.current().export() == s.export()
}

/// `post` is `pre` with one more generation installed: same engine, same
/// export name, the count one higher.
pub open spec fn advanced(pre: WasmState, post: WasmState) -> bool {
    &&& post.engine() == pre.engine()
    &&& post.export() == pre.export()
    &&& post.generation() == pre.generation() + 1
}

/// What a reload attempt with `artifact` does: on success a whole new
/// generation built from `artifact` replaces the current one; on failure
/// nothing changes.
pub open spec fn reload_step(pre: WasmState, post: WasmState, artifact: Seq<u8>, succeeded: bool) -> bool {
    if succeeded {
        &&& advanced(pre, post)
        &&& post.current().artifact() == artifact
        &&& post.current().export() == pre.export()
    } else {
        post == pre
    }
}

/// What a call does to the state: it stays in the current generation, and
/// only that generation's execution context may change.
pub open spec fn called(pre: WasmState, post: WasmState) -> bool {
    &&& post.engine() == pre.engine()
    &&& post.export() == pre.export()
    &&& post.generation() == pre.generation()
    &&& post.current().artifact() == pre.current().artifact()
    &&& post.current().export() == pre.current().export()
    &&& post.current().binding() == pre.current().binding()
}

impl WasmState {
    /// The engine that every generation is compiled with.
    pub closed spec fn engine(&self) -> Engine {
        self.engine
    }

    /// The name of the export that each generation binds.
    pub closed spec fn export(&self) -> Seq<char> {
        self.export@
    }

    /// The live generation.
    pub closed spec fn current(&self) -> Generation {
        self.current
    }

    /// How many reloads have succeeded since startup.
    pub closed spec fn generation(&self) -> nat {
        self.installed@
    }

    /// Starts up: creates the engine and builds generation 0 from
    /// `artifact`, binding its export `export`. A failure here is reported,
    /// and the caller cannot start.
    pub fn new(artifact: &[u8], export: &str) -> (r: Result<WasmState, ReloadFailure>)
        ensures
            r matches Ok(s) ==> {
                &&& s.generation() == 0
                &&& s.export() == export@
                &&& s.current().artifact() == artifact@
                &&& s.current().export() == export@
                &&& well_formed(s)
            },
    {
        let engine = default_engine();
        match Generation::build(&engine, artifact, export) {
            Ok(current) => Ok(WasmState {
                engine,
                export: export.to_string(),
                current,
                installed: Ghost(0),
            }),
            Err(e) => Err(e),
        }
    }

    /// Another handle to the shared engine, to build a generation with
    /// away from the state.
    pub fn engine_handle(&self) -> Engine {
        share_engine(&self.engine)
    }

    /// The name of the export that each generation binds.
    pub fn export_name(&self) -> (r: String)
        ensures
            r@ == self.export(),
    {
        self.export.clone()
    }

    /// Builds, from `artifact`, a generation that `install` can swap in;
    /// the state itself is only read.
    pub fn prepare(&self, artifact: &[u8]) -> (r: Result<Generation, ReloadFailure>)
        ensures
            r matches Ok(g) ==> g.artifact() == artifact@ && g.export() == self.export(),
    {
        Generation::build(&self.engine, artifact, self.export.as_str())
    }

    /// Swaps in `next`, a generation that binds this state's export, as the
    /// current generation, whole and at once.
    pub fn install(&mut self, next: Generation)
        requires
            next.export() == old(self).export(),
        ensures
            well_formed(*old(self)) ==> well_formed(*final(self)),
            advanced(*old(self), *final(self)),
            final(self).current() == next,
    {
        self.current = next;
        self.installed = Ghost(self.installed@ + 1);
    }

    /// Loads `artifact` again and, when every step succeeds, swaps the new
    /// generation in; when one fails, the state is left exactly as it was
    /// and the failure is returned.
    pub fn reload(&mut self, artifact: &[u8]) -> (r: Result<(), ReloadFailure>)
        ensures
            reload_step(*old(self), *final(self), artifact@, r is Ok),
            well_formed(*old(self)) ==> well_formed(*final(self)),
    {
        match self.prepare(artifact) {
            Ok(next) => {
                self.install(next);
                Ok(())
            },
            Err(e) => Err(e),
        }
    }

    /// Calls the current generation's entry point with `(x, y)`.
    pub fn invoke(&mut self, x: u64, y: u64) -> (r: Result<u64, InvocationFailure>)
        ensures
            called(*old(self), *final(self)),
            well_formed(*old(self)) ==> well_formed(*final(self)),
    {
        self.current.invoke(x, y)
    }
}

} // verus!
