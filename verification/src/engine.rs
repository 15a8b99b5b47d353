//! The fuel-bounded executor: loads a module, finds the exported function,
//! and calls it once under a fixed budget of fuel.

use crate::outcome::{
    call_view, classified, classify, CallFault, ExecutionOutcome, OutcomeView,
};
use std::time::{Duration, Instant};
use vstd::prelude::*;
use wasmtime::{Config, Engine, ExternType, Instance, Module, Store, Trap, TypedFunc};

verus! {

/// The fuel that a run starts with.
pub const FUEL_BUDGET: u64 = 10_000;

/// `wasmtime::Engine`, the compiler and its settings.
#[verifier::external_type_specification]
#[verifier::external_body]
pub struct ExEngine(Engine);

/// `wasmtime::Module`, a validated and compiled module.
#[verifier::external_type_specification]
#[verifier::external_body]
pub struct ExModule(Module);

/// `wasmtime::Store`, which owns instances, their functions and the fuel.
#[verifier::external_type_specification]
#[verifier::external_body]
#[verifier::reject_recursive_types(T)]
pub struct ExStore<T: 'static>(Store<T>);

/// `wasmtime::Instance`, a handle to an instance that some store owns.
#[verifier::external_type_specification]
#[verifier::external_body]
pub struct ExInstance(Instance);

/// `wasmtime::TypedFunc`, a handle to a function that some store owns.
#[verifier::external_type_specification]
#[verifier::external_body]
#[verifier::reject_recursive_types(Params)]
#[verifier::reject_recursive_types(Results)]
pub struct ExTypedFunc<Params, Results>(TypedFunc<Params, Results>);

/// `wasmtime::Error`, the failure of an engine call.
#[verifier::external_type_specification]
#[verifier::external_body]
pub struct ExEngineError(wasmtime::Error);

/// `std::time::Instant`, a reading of the monotonic clock.
#[verifier::external_type_specification]
#[verifier::external_body]
pub struct ExInstant(Instant);

/// `Instant::now`: the current reading of the monotonic clock. Nothing is
/// claimed of it.
pub assume_specification[ Instant::now ]() -> (now: Instant)
;

/// `Instant::elapsed`: the time since `since` was read. Nothing is claimed of
/// it.
pub assume_specification[ Instant::elapsed ](since: &Instant) -> (elapsed: Duration)
;

/// `Duration::as_millis`: the whole milliseconds of `duration`. Nothing is
/// claimed of it.
pub assume_specification[ Duration::as_millis ](duration: &Duration) -> (millis: u128)
;

/// What a module exports under a name.
#[derive(Debug, Clone, Copy, PartialEq, Eq)]
pub enum ExportKind {
    /// A function, with the number of its parameters and of its results.
    Function { params: usize, results: usize },
    /// A table, a memory, a global or a tag.
    Other,
}

/// The bytes that a compiled module was made from.
pub uninterp spec fn module_source(module: Module) -> Seq<u8>;

/// The exports of the module with the bytes `data`, by name.
pub uninterp spec fn binary_exports(data: Seq<u8>) -> Map<Seq<char>, ExportKind>;

/// What the module with the bytes `data` exports under `name`, if anything.
pub open spec fn exported(data: Seq<u8>, name: Seq<char>) -> Option<ExportKind> {
    if binary_exports(data).dom().contains(name) {
        Some(binary_exports(data)[name])
    } else {
        None
    }
}

/// Whether the engine of a store meters fuel, so that every call into a
/// guest of the store comes back.
pub uninterp spec fn store_metered(store: Store<()>) -> bool;

/// The instances that a store owns.
pub uninterp spec fn store_instances(store: Store<()>) -> Set<Instance>;

/// The typed functions that a store owns.
pub uninterp spec fn store_entries(store: Store<()>) -> Set<TypedFunc<(), ()>>;

/// Calls `Engine::new` with a `Config` on which `consume_fuel(metered)` was
/// called: an engine whose stores meter fuel if `metered`, or the engine's
/// complaint.
#[verifier::external_body]
fn new_engine(metered: bool) -> (result: Result<Engine, wasmtime::Error>) {
    let mut config = Config::new();
    config.consume_fuel(metered);
    Engine::new(&config)
}

/// Calls `Module::new`, which validates and compiles the binary `data`: a
/// module that it returns was made from `data`.
#[verifier::external_body]
fn compile(engine: &Engine, data: &[u8]) -> (result: Result<Module, wasmtime::Error>)
    ensures
        result matches Ok(module) ==> module_source(module) == data@,
{
    Module::new(engine, data)
}

/// Calls `Module::get_export`: what `module` exports under `name`, if
/// anything; of a function, the lengths of `FuncType::params` and
/// `FuncType::results`. The exports of a module are those that its bytes
/// declare, which `binary_exports` names.
#[verifier::external_body]
fn find_export(module: &Module, name: &str) -> (found: Option<ExportKind>)
    ensures
        found == if binary_exports(module_source(*module)).dom().contains(name@) {
            Some(binary_exports(module_source(*module))[name@])
        } else {
            None
        },
{
    match module.get_export(name) {
        Some(ExternType::Func(ty)) => Some(
            ExportKind::Function { params: ty.params().len(), results: ty.results().len() },
        ),
        Some(_) => Some(ExportKind::Other),
        None => None,
    }
}

/// Calls `Store::new` with no host state.
#[verifier::external_body]
fn new_store(engine: &Engine) -> (store: Store<()>) {
    Store::new(engine, ())
}

/// Calls `Store::set_fuel`, which succeeds only where the engine of the store
/// meters fuel.
#[verifier::external_body]
fn set_fuel(store: &mut Store<()>, fuel: u64) -> (result: Result<(), wasmtime::Error>)
    ensures
        result is Ok ==> store_metered(*final(store)),
{
    store.set_fuel(fuel)
}

/// Calls `Instance::new` with no imports, which runs the start function of
/// the module: it comes back where the store meters fuel. An instance that it
/// returns is owned by `store`.
#[verifier::external_body]
fn instantiate(store: &mut Store<()>, module: &Module) -> (result: Result<
    Instance,
    wasmtime::Error,
>)
    requires
        store_metered(*old(store)),
    ensures
        store_metered(*final(store)),
        result matches Ok(instance) ==> store_instances(*final(store)).contains(instance),
{
    Instance::new(store, module, &[])
}

/// Calls `Instance::get_typed_func` for a function without parameters and
/// results. It panics where `store` does not own `instance`; a function that
/// it returns is owned by `store`.
#[verifier::external_body]
fn typed_entry(store: &mut Store<()>, instance: &Instance, name: &str) -> (result: Result<
    TypedFunc<(), ()>,
    wasmtime::Error,
>)
    requires
        store_instances(*old(store)).contains(*instance),
    ensures
        store_metered(*final(store)) == store_metered(*old(store)),
        result matches Ok(entry) ==> store_entries(*final(store)).contains(entry),
{
    instance.get_typed_func::<(), ()>(store, name)
}

/// Calls `TypedFunc::call`. It panics where `store` does not own `entry`, and
/// comes back where the store meters fuel.
#[verifier::external_body]
fn call_entry(store: &mut Store<()>, entry: &TypedFunc<(), ()>) -> (result: Result<
    (),
    wasmtime::Error,
>)
    requires
        store_metered(*old(store)),
        store_entries(*old(store)).contains(*entry),
{
    entry.call(store, ())
}

/// Tells the engine's failures apart by `Error::downcast_ref::<Trap>`:
/// `Trap::OutOfFuel`, any other trap with its `Display` text, and any other
/// failure with its `Display` text.
#[verifier::external_body]
fn fault_of(error: &wasmtime::Error) -> (fault: CallFault) {
    match error.downcast_ref::<Trap>() {
        Some(Trap::OutOfFuel) => CallFault::OutOfFuel,
        Some(trap) => CallFault::Trap(trap.to_string()),
        None => CallFault::Other(error.to_string()),
    }
}

/// The `Display` text of an engine failure.
#[verifier::external_body]
fn failure_text(error: &wasmtime::Error) -> (text: String) {
    error.to_string()
}

/// Why a run could not be set up.
#[derive(Debug, PartialEq, Eq)]
pub enum SetupError {
    /// The module's bytes failed to load or validate; the engine's message.
    Validation(String),
    /// The module exports no function under the requested name.
    FunctionNotFound,
    /// The exported function takes parameters or returns results.
    SignatureMismatch,
}

/// What is said of a run that could not be set up: the engine's message where
/// there is one, a fixed sentence else.
pub open spec fn setup_message(error: SetupError) -> Seq<char> {
    match error {
        SetupError::Validation(message) => message@,
        SetupError::FunctionNotFound => "Function not found"@,
        SetupError::SignatureMismatch => "Function takes parameters or returns results"@,
    }
}

impl SetupError {
    /// What is said of the error.
    pub fn message(&self) -> (message: String)
        ensures
            message@ == setup_message(*self),
    {
        match self {
            SetupError::Validation(message) => message.clone(),
            SetupError::FunctionNotFound => "Function not found".to_owned(),
            SetupError::SignatureMismatch => "Function takes parameters or returns results"
                .to_owned(),
        }
    }
}

/// Whether an export can be run: `FunctionNotFound` where there is none or it
/// is no function, `SignatureMismatch` where the function has a parameter or
/// a result.
pub open spec fn entry_check(export: Option<ExportKind>) -> Result<(), SetupError> {
    match export {
        Some(ExportKind::Function { params, results }) => if params == 0 && results == 0 {
            Ok(())
        } else {
            Err(SetupError::SignatureMismatch)
        },
        _ => Err(SetupError::FunctionNotFound),
    }
}

/// Checks that an export can be run.
pub fn check_entry(export: Option<ExportKind>) -> (result: Result<(), SetupError>)
    ensures
        result == entry_check(export),
{
    match export {
        Some(ExportKind::Function { params, results }) => if params == 0 && results == 0 {
            Ok(())
        } else {
            Err(SetupError::SignatureMismatch)
        },
        _ => Err(SetupError::FunctionNotFound),
    }
}

/// A validated, compiled module, with the engine that compiled it.
pub struct LoadedModule {
    engine: Engine,
    module: Module,
}

impl LoadedModule {
    /// The bytes that the module was loaded from.
    pub closed spec fn source(&self) -> Seq<u8> {
        module_source(self.module)
    }

    /// What the module exports under `name`, if anything.
    pub open spec fn export(&self, name: Seq<char>) -> Option<ExportKind> {
        exported(self.source(), name)
    }

    /// What the module exports under `name`, if anything.
    pub fn find(&self, name: &str) -> (found: Option<ExportKind>)
        ensures
            found == self.export(name@),
    {
        find_export(&self.module, name)
    }
}

/// One run: how it ended and how long the call took.
#[derive(Debug, PartialEq, Eq)]
pub struct Execution {
    pub outcome: ExecutionOutcome,
    pub duration_ms: u128,
}

/// Loads a module from its bytes, for an engine that meters fuel. No instance
/// is made: bytes that fail to load or validate give `Validation`, with the
/// engine's message. A module that is returned is the one made from `data`.
pub fn load(data: &[u8]) -> (result: Result<LoadedModule, SetupError>)
    ensures
        match result {
            Ok(loaded) => loaded.source() == data@,
            Err(error) => error is Validation,
        },
{
    match new_engine(true) {
        Err(error) => Err(SetupError::Validation(failure_text(&error))),
        Ok(engine) => match compile(&engine, data) {
            Err(error) => Err(SetupError::Validation(failure_text(&error))),
            Ok(module) => Ok(LoadedModule { engine, module }),
        },
    }
}

impl Execution {
    /// The run in which the call was made: its result, classified, and the
    /// time that the call took.
    pub fn called(result: Result<(), CallFault>, duration_ms: u128) -> (execution: Execution)
        ensures
            execution.outcome@ == classified(call_view(result)),
            execution.duration_ms == duration_ms,
    {
        Execution { outcome: classify(result), duration_ms }
    }

    /// The run that failed before the call could be made: the message of the
    /// failure, unchanged, and no time spent in the call.
    pub fn not_called(message: String) -> (execution: Execution)
        ensures
            execution.outcome@ == OutcomeView::OtherFailure(message@),
            execution.duration_ms == 0,
    {
        Execution { outcome: ExecutionOutcome::OtherFailure(message), duration_ms: 0 }
    }
}

/// Runs the function that `loaded` exports as `name`, once, in a fresh
/// instance without imports and with `fuel` units of fuel.
///
/// The export is checked first, against the module alone: a missing export
/// and one with the wrong signature are the only errors. Whatever fails
/// after that is an outcome of the run.
pub fn run(loaded: &LoadedModule, name: &str, fuel: u64) -> (result: Result<Execution, SetupError>)
    ensures
        match result {
            Ok(execution) => entry_check(loaded.export(name@)) is Ok,
            Err(error) => entry_check(loaded.export(name@)) == Err::<(), SetupError>(error),
        },
{
    match check_entry(loaded.find(name)) {
        Err(error) => Err(error),
        Ok(()) => {
            let mut store = new_store(&loaded.engine);
            if let Err(error) = set_fuel(&mut store, fuel) {
                return Ok(Execution::not_called(failure_text(&error)));
            }
            let instance = match instantiate(&mut store, &loaded.module) {
                Ok(instance) => instance,
                Err(error) => {
                    return Ok(Execution::not_called(failure_text(&error)));
                },
            };
            let entry = match typed_entry(&mut store, &instance, name) {
                Ok(entry) => entry,
                Err(error) => {
                    return Ok(Execution::not_called(failure_text(&error)));
                },
            };
            let start = Instant::now();
            let called = call_entry(&mut store, &entry);
            let duration_ms = start.elapsed().as_millis();
            let result = match called {
                Ok(()) => Ok(()),
                Err(error) => Err(fault_of(&error)),
            };
            Ok(Execution::called(result, duration_ms))
        },
    }
}

} // verus!
