//! The WebAssembly runtime as this library sees it: its types, declared
//! opaque, and one wrapper for each of its operations that the lifecycle
//! uses. A handle that lives in a store is only ever held together with
//! that store, so no operation can be handed a store that does not own it.
//! Nothing is promised of what the operations return: whether a unit
//! compiles, instantiates or traps is the runtime's business.

use vstd::prelude::*;
use wasmtime::{Engine, Instance, Module, Store, TypedFunc};

verus! {

#[verifier::external_type_specification]
#[verifier::external_body]
pub struct ExEngine(Engine);

#[verifier::external_type_specification]
#[verifier::external_body]
pub struct ExModule(Module);

#[verifier::external_type_specification]
#[verifier::external_body]
pub struct ExInstance(Instance);

#[verifier::external_type_specification]
#[verifier::external_body]
pub struct ExRuntimeError(wasmtime::Error);

#[verifier::external_type_specification]
#[verifier::external_body]
#[verifier::reject_recursive_types(T)]
pub struct ExStore<T: 'static>(Store<T>);

#[verifier::external_type_specification]
#[verifier::external_body]
#[verifier::reject_recursive_types(Params)]
#[verifier::reject_recursive_types(Results)]
pub struct ExTypedFunc<Params, Results>(TypedFunc<Params, Results>);

/// The signature of the entry point: two 64-bit inputs, one 64-bit output.
pub type EntryFunc = TypedFunc<(u64, u64), u64>;

/// Relies on `Engine::default`: an engine with the default configuration.
/// It panics only where that configuration does not suit the host.
#[verifier::external_body]
pub(crate) fn default_engine() -> Engine {
    Engine::default()
}

/// Relies on `Engine::clone`: another handle to the same shared engine.
#[verifier::external_body]
pub(crate) fn share_engine(engine: &Engine) -> Engine {
    Engine::clone(engine)
}

/// Relies on `Module::new`: decodes, validates and compiles a unit given in
/// the binary or the text format.
#[verifier::external_body]
pub(crate) fn compile(engine: &Engine, artifact: &[u8]) -> Result<Module, wasmtime::Error> {
    Module::new(engine, artifact)
}

/// Relies on `Store::new`: a fresh execution context, with no host data.
/// It panics only where memory cannot be allocated.
#[verifier::external_body]
pub(crate) fn new_store(engine: &Engine) -> Store<()> {
    Store::new(engine, ())
}

/// A store together with the instance created in it. Only `instantiate`
/// makes one, so the instance always belongs to the store beside it.
pub struct Instantiated {
    store: Store<()>,
    instance: Instance,
}

/// An instantiated unit together with its entry point, resolved in the
/// unit's own store. Only `bind_entry` makes one.
pub struct Bound {
    unit: Instantiated,
    entry: EntryFunc,
}

impl Bound {
    /// The instance and the entry point: what no call changes.
    pub closed spec fn binding(&self) -> (Instance, EntryFunc) {
        (self.unit.instance, self.entry)
    }
}

/// Relies on `Instance::new`: instantiates `module` in `store` with no
/// imports, and keeps the instance with its store. It panics only on an
/// import that the store does not own, and none is given; a module of
/// another engine is an error, not a panic.
#[verifier::external_body]
pub(crate) fn instantiate(store: Store<()>, module: &Module) -> Result<Instantiated, wasmtime::Error> {
    let mut store = store;
    match Instance::new(&mut store, module, &[]) {
        Ok(instance) => Ok(Instantiated { store, instance }),
        Err(e) => Err(e),
    }
}

/// Relies on `Instance::get_typed_func`: the function exported under
/// `name`, if there is one and it takes two 64-bit integers to one; an
/// error otherwise. It panics only on a store that does not own the
/// instance, and `unit` holds the instance with its own store.
#[verifier::external_body]
pub(crate) fn bind_entry(unit: Instantiated, name: &str) -> Result<Bound, wasmtime::Error> {
    let mut unit = unit;
    match unit.instance.get_typed_func::<(u64, u64), u64>(&mut unit.store, name) {
        Ok(entry) => Ok(Bound { unit, entry }),
        Err(e) => Err(e),
    }
}

/// Relies on `TypedFunc::call`: runs the entry point in its own store,
/// which yields its result or the trap it raised; only the store changes.
/// It panics only on a store that does not hold the function, and `bound`
/// holds the entry point with the store it was resolved in.
#[verifier::external_body]
pub(crate) fn call_entry(bound: &mut Bound, x: u64, y: u64) -> (r: Result<u64, wasmtime::Error>)
    ensures
        final(bound).binding() == old(bound).binding(),
{
    bound.entry.call(&mut bound.unit.store, (x, y))
}

} // verus!
