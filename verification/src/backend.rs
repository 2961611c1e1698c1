//! The trusted boundary to the execution backend.
//!
//! The bytecode compiler, validator and execution engine are outside
//! collaborators: the bridge consumes them as opaque operations.  This module
//! declares their types to the verifier and wraps each call the bridge makes,
//! so that everything around the calls is verified against the contracts
//! stated here.  Every item in this module is trusted: its contract is
//! believed, not proved.

use crate::adapter::ticket_report;
use crate::adapter::AdapterPoll;
use crate::adapter::FutureAdapter;
use crate::adapter::TimerHandle;
use std::future::Future;
use std::pin::Pin;
use std::task::Context;
use std::task::Poll;
use std::task::Waker;
use vstd::prelude::*;

verus! {

#[verifier::external_type_specification]
#[verifier::external_body]
pub struct ExConfig(wasmtime::Config);

#[verifier::external_type_specification]
#[verifier::external_body]
#[verifier::reject_recursive_types(T)]
pub struct ExLinker<T>(wasmtime::Linker<T>);

#[verifier::external_type_specification]
#[verifier::external_body]
pub struct ExFuncType(wasmtime::FuncType);

#[verifier::external_type_specification]
#[verifier::external_body]
pub struct ExFunc(wasmtime::Func);

#[verifier::external_type_specification]
#[verifier::external_body]
#[verifier::reject_recursive_types(Params)]
#[verifier::reject_recursive_types(Results)]
pub struct ExTypedFunc<Params, Results>(wasmtime::TypedFunc<Params, Results>);

/// The backend's compiled-code context, held opaquely.
/// Relies on `wasmtime::Engine` being immutable and freely shared.
#[verifier::external_body]
pub struct RawEngine {
    inner: wasmtime::Engine,
}

/// The backend's compiled representation of one guest program, held
/// opaquely.
/// Relies on `wasmtime::Module` being immutable once built.
#[verifier::external_body]
pub struct RawModule {
    inner: wasmtime::Module,
}

/// The backend's mutable execution session, held opaquely.
/// Relies on `wasmtime::Store` confining all guest state it holds.
#[verifier::external_body]
pub struct RawStore {
    inner: wasmtime::Store<()>,
}

/// The backend's linked instance, held opaquely.
/// Relies on `wasmtime::Instance` staying bound to the store it was made in.
#[verifier::external_body]
pub struct RawInstance {
    inner: wasmtime::Instance,
}

/// What compiling a given source text yields: nothing when the text fails
/// validation, and otherwise, for each export in declaration order, its
/// name and whether it is a function of the niladic, void-returning shape.
/// Compilation is a pure function of the text, but what it yields can only
/// be named, not stated.  The name takes the text alone while the call
/// also takes an engine; that is sound only because `RawEngine` is sealed
/// to this crate and every engine carries the one bridge configuration.
pub uninterp spec fn wat_compilation(src: Seq<char>) -> Option<Seq<(Seq<char>, bool)>>;

/// What a compiled module holds: for each export in declaration order, its
/// name and whether it is a function of the niladic, void-returning shape.
pub uninterp spec fn module_exports(m: RawModule) -> Seq<(Seq<char>, bool)>;

/// Whether every import the module declares is the one capability the
/// bridge's linkers bind: host module `host`, name `sleep`, with the
/// niladic, void-returning function signature.
pub uninterp spec fn module_imports_sleep_only(m: RawModule) -> bool;

/// What a linked instance holds: its exports, as its module's.
pub uninterp spec fn instance_exports(i: RawInstance) -> Seq<(Seq<char>, bool)>;

/// The exports a pending instantiation will expose when it settles ready.
pub uninterp spec fn flight_exports(f: InstanceFlight) -> Seq<(Seq<char>, bool)>;

/// Whether the pending instantiation's module declares only the one
/// `host.sleep` import that the bridge's linkers satisfy.
pub uninterp spec fn flight_imports_ok(f: InstanceFlight) -> bool;

/// Whether an export model holds the given name as a function of the
/// niladic, void-returning shape.
pub open spec fn model_has_nullary(list: Seq<(Seq<char>, bool)>, name: Seq<char>) -> bool {
    exists|j: int| 0 <= j < list.len() && list[j].0 == name && list[j].1
}

/// The bridge's record of an engine configuration, kept alongside the
/// backend's opaque configuration value and updated by the trusted
/// contracts of the setters below.
pub struct ConfigModel {
    /// Whether the backend's own asynchronous suspension model is enabled.
    pub async_support: bool,
    /// Whether preemption-unit accounting is enabled.
    pub consume_fuel: bool,
    /// Eager reservation for guest linear memory, in bytes.
    pub memory_reservation: u64,
    /// Reservation kept for later linear-memory growth, in bytes.
    pub memory_reservation_for_growth: u64,
    /// Guard region placed after guest linear memory, in bytes.
    pub memory_guard_size: u64,
    /// Stack available to guest call frames, in bytes.
    pub max_wasm_stack: usize,
    /// Stack used for asynchronous suspension frames, in bytes.
    pub async_stack_size: usize,
}

/// A backend configuration under construction, paired with the bridge's
/// record of what has been set on it.
pub struct BackendConfig {
    pub(crate) raw: wasmtime::Config,
    pub(crate) model: Ghost<ConfigModel>,
}

/// What one non-blocking poll of a pending instantiation reports.
pub enum InstancePoll {
    /// Not complete yet; poll again later.
    Pending,
    /// Instantiation finished and produced the raw instance.
    Ready(RawInstance),
    /// Instantiation failed without a guest trap: import resolution or
    /// signature matching failed, or a non-trap failure (such as a failing
    /// host import awaited by start code) ended it.
    LinkFailed(String),
    /// Guest start code trapped.
    Trapped(String),
}

/// What one non-blocking poll of an in-flight guest call reports.
pub enum CallPoll {
    /// The guest has more work to do: it yielded on its preemption budget
    /// or is waiting on a pending host import.
    Pending,
    /// The guest function returned normally.
    Done,
    /// The guest trapped, which includes exhausting its whole preemption
    /// budget.
    Trapped(String),
    /// A host import call reported a failure.
    HostFailed(String),
}

/// A fresh backend configuration value.
/// Relies on `wasmtime::Config::new`.
#[verifier::external_body]
pub(crate) fn raw_config_new() -> wasmtime::Config {
    wasmtime::Config::new()
}

/// A fresh backend configuration; nothing of its record is known until the
/// setters below pin each field.
pub(crate) fn config_new() -> BackendConfig {
    let ghost model: ConfigModel = arbitrary();
    BackendConfig { raw: raw_config_new(), model: Ghost(model) }
}

/// Enable the backend's own asynchronous suspension model.
/// Relies on `wasmtime::Config::async_support`.
#[verifier::external_body]
pub(crate) fn config_async_support(c: &mut BackendConfig, enable: bool)
    ensures
        final(c).model@ == (ConfigModel { async_support: enable, ..old(c).model@ }),
{
    c.raw.async_support(enable);
}

/// Enable preemption-unit accounting.
/// Relies on `wasmtime::Config::consume_fuel`.
#[verifier::external_body]
pub(crate) fn config_consume_fuel(c: &mut BackendConfig, enable: bool)
    ensures
        final(c).model@ == (ConfigModel { consume_fuel: enable, ..old(c).model@ }),
{
    c.raw.consume_fuel(enable);
}

/// Bound the eager reservation for guest linear memory.
/// Relies on `wasmtime::Config::memory_reservation`.
#[verifier::external_body]
pub(crate) fn config_memory_reservation(c: &mut BackendConfig, bytes: u64)
    ensures
        final(c).model@ == (ConfigModel { memory_reservation: bytes, ..old(c).model@ }),
{
    c.raw.memory_reservation(bytes);
}

/// Bound the reservation kept for later linear-memory growth.
/// Relies on `wasmtime::Config::memory_reservation_for_growth`.
#[verifier::external_body]
pub(crate) fn config_memory_reservation_for_growth(c: &mut BackendConfig, bytes: u64)
    ensures
        final(c).model@ == (ConfigModel {
            memory_reservation_for_growth: bytes,
            ..old(c).model@
        }),
{
    c.raw.memory_reservation_for_growth(bytes);
}

/// Bound the guard region placed after guest linear memory.
/// Relies on `wasmtime::Config::memory_guard_size`.
#[verifier::external_body]
pub(crate) fn config_memory_guard_size(c: &mut BackendConfig, bytes: u64)
    ensures
        final(c).model@ == (ConfigModel { memory_guard_size: bytes, ..old(c).model@ }),
{
    c.raw.memory_guard_size(bytes);
}

/// Bound the stack available to guest call frames.
/// Relies on `wasmtime::Config::max_wasm_stack`.
#[verifier::external_body]
pub(crate) fn config_max_wasm_stack(c: &mut BackendConfig, size: usize)
    ensures
        final(c).model@ == (ConfigModel { max_wasm_stack: size, ..old(c).model@ }),
{
    c.raw.max_wasm_stack(size);
}

/// Bound the stack used for asynchronous suspension frames.
/// Relies on `wasmtime::Config::async_stack_size`.
#[verifier::external_body]
pub(crate) fn config_async_stack_size(c: &mut BackendConfig, size: usize)
    ensures
        final(c).model@ == (ConfigModel { async_stack_size: size, ..old(c).model@ }),
{
    c.raw.async_stack_size(size);
}

/// Build the compiled-code backend with the given configuration.
/// Relies on `wasmtime::Engine::new`, which fails if the backend cannot be
/// initialized with those limits.
#[verifier::external_body]
pub(crate) fn engine_new(c: &BackendConfig) -> Result<RawEngine, String> {
    match wasmtime::Engine::new(&c.raw) {
        Ok(e) => Ok(RawEngine { inner: e }),
        Err(e) => Err(e.to_string()),
    }
}

/// Compile one guest source text and list, for each export in declaration
/// order, its name and whether it is a function of the niladic,
/// void-returning shape.
/// Relies on `wasmtime::Module::new` (validation and compilation; succeeds
/// exactly for text that validates, with no partial module on failure) and
/// `wasmtime::Module::exports` (the module's exports, in declaration
/// order).
#[verifier::external_body]
pub(crate) fn compile_wat(e: &RawEngine, wat: &str) -> (r: Result<
    (RawModule, Vec<String>, Vec<bool>),
    String,
>)
    ensures
        r is Ok <==> wat_compilation(wat@) is Some,
        r matches Ok(p) ==> (wat_compilation(wat@) matches Some(exps) && p.1@.len() == exps.len()
            && p.2@.len() == exps.len() && (forall|i: int|
            0 <= i < exps.len() ==> p.1@[i]@ == exps[i].0 && p.2@[i] == exps[i].1)),
        r matches Ok(p) ==> module_exports(p.0).len() == p.1@.len() && (forall|i: int|
            0 <= i < p.1@.len() ==> module_exports(p.0)[i].0 == p.1@[i]@ && module_exports(
                p.0,
            )[i].1 == p.2@[i]),
{
    match wasmtime::Module::new(&e.inner, wat) {
        Ok(m) => {
            let names = m.exports().map(|x| x.name().to_string()).collect();
            let nullary = m.exports().map(|x| match x.ty() {
                wasmtime::ExternType::Func(f) => f.params().len() == 0 && f.results().len() == 0,
                _ => false,
            }).collect();
            Ok((RawModule { inner: m }, names, nullary))
        }
        Err(err) => Err(err.to_string()),
    }
}

/// A fresh execution session against the given backend.
/// Relies on `wasmtime::Store::new`.
#[verifier::external_body]
pub(crate) fn store_new(e: &RawEngine) -> RawStore {
    RawStore { inner: wasmtime::Store::new(&e.inner, ()) }
}

/// Grant the session its total preemption budget.
/// Relies on `wasmtime::Store::set_fuel`, which errs exactly when
/// accounting is disabled in the engine's configuration; every engine of
/// this bridge enables it, so the call succeeds on every store the bridge
/// can make.
#[verifier::external_body]
pub(crate) fn store_set_fuel(s: &mut RawStore, fuel: u64) -> (r: Result<(), String>)
    ensures
        r is Ok,
{
    s.inner.set_fuel(fuel).map_err(|e| e.to_string())
}

/// Make guest execution yield after each slice of the budget, so that a
/// guest that never yields on its own is still preempted.
/// Relies on `wasmtime::Store::fuel_async_yield_interval`, which errs
/// exactly when accounting or asynchronous support is disabled — every
/// engine of this bridge enables both — or when the interval is zero,
/// which the contract rules out.
#[verifier::external_body]
pub(crate) fn store_set_yield_interval(s: &mut RawStore, interval: u64) -> (r: Result<(), String>)
    requires
        interval != 0,
    ensures
        r is Ok,
{
    s.inner.fuel_async_yield_interval(Some(interval)).map_err(|e| e.to_string())
}

/// A fresh import table for the given backend.
/// Relies on `wasmtime::Linker::new`.
#[verifier::external_body]
pub(crate) fn linker_new(e: &RawEngine) -> wasmtime::Linker<()> {
    wasmtime::Linker::new(&e.inner)
}

/// The niladic, void-returning guest function signature.
/// Relies on `wasmtime::FuncType::new`.
#[verifier::external_body]
pub(crate) fn nullary_func_type(e: &RawEngine) -> wasmtime::FuncType {
    wasmtime::FuncType::new(&e.inner, [], [])
}

/// Bind the asynchronous host import `host.sleep`: each guest call to it
/// takes a fresh, independent ticket on the session's timer source and
/// returns a continuation that polls that ticket through a fresh adapter
/// until the ticket's operation completes or fails.
/// Relies on `wasmtime::Linker::func_new_async` and `std::future::poll_fn`;
/// the closures only query the timer source and call the verified
/// settlements `ticket_report` and `FutureAdapter::step_guarded`.
#[verifier::external_body]
pub(crate) fn linker_bind_sleep(
    l: &mut wasmtime::Linker<()>,
    ty: wasmtime::FuncType,
    timer: &TimerHandle,
) -> Result<(), String> {
    let t = timer.share();
    let bound = l.func_new_async("host", "sleep", ty, move |_caller, _params, _results| {
        let (mut adapter, handle) = (FutureAdapter::new(), t.share());
        let ticket = handle.take_ticket();
        Box::new(std::future::poll_fn(move |_| {
            let (completed, poisoned) = handle.poll_status();
            match adapter.step_guarded(ticket_report(ticket, completed, poisoned)) {
                AdapterPoll::NotReady => Poll::Pending,
                AdapterPoll::Done => Poll::Ready(Ok(())),
                AdapterPoll::Error(m) => Poll::Ready(Err(wasmtime::Error::msg(m))),
            }
        }))
    });
    bound.map(|_| ()).map_err(|err| err.to_string())
}

/// One instantiation in flight: the pending continuation produced by the
/// backend, pinned so it can be polled step by step.
/// Relies on the backend's continuation staying valid while the linker,
/// session and module it borrows are held by this value.
#[verifier::external_body]
pub struct InstanceFlight<'a> {
    inner: Pin<Box<dyn Future<Output = wasmtime::Result<wasmtime::Instance>> + 'a>>,
}

/// Begin instantiating a module against a session and an import table.  No
/// guest start code runs yet; the returned flight is advanced by
/// [`poll_instantiate`], carries the module's exports, and keeps whether
/// the module's imports are the one binding the bridge's linkers hold.
/// Relies on `wasmtime::Linker::instantiate_async`; the backend treats a
/// linker, session and module of different engines as a caller fault, and
/// the session types' contracts keep every caller to one engine.
#[verifier::external_body]
pub(crate) fn begin_instantiate<'a>(
    l: &'a wasmtime::Linker<()>,
    s: &'a mut RawStore,
    m: &'a RawModule,
) -> (f: InstanceFlight<'a>)
    ensures
        flight_exports(f) == module_exports(*m),
        flight_imports_ok(f) == module_imports_sleep_only(*m),
{
    InstanceFlight { inner: Box::pin(l.instantiate_async(&mut s.inner, &m.inner)) }
}

/// One non-blocking poll of a pending instantiation, with an inert waker.
/// Relies on polling the backend's continuation; a failure is told apart as
/// a guest trap or a non-trap failure by `wasmtime::Error::downcast_ref`.
/// A ready instance exposes exactly its module's exports; import
/// resolution runs before any start code, so a module whose imports the
/// bridge's linkers cannot satisfy settles as a non-trap failure on the
/// first poll, and the linkers of this crate bind `host.sleep` alone.
#[verifier::external_body]
pub(crate) fn poll_instantiate<'a>(f: &mut InstanceFlight<'a>) -> (r: InstancePoll)
    ensures
        flight_exports(*final(f)) == flight_exports(*old(f)),
        flight_imports_ok(*final(f)) == flight_imports_ok(*old(f)),
        r matches InstancePoll::Ready(i) ==> instance_exports(i) == flight_exports(*old(f)),
        !flight_imports_ok(*old(f)) ==> r is LinkFailed,
{
    let mut cx = Context::from_waker(Waker::noop());
    match f.inner.as_mut().poll(&mut cx) {
        Poll::Pending => InstancePoll::Pending,
        Poll::Ready(Ok(i)) => InstancePoll::Ready(RawInstance { inner: i }),
        Poll::Ready(Err(e)) => match e.downcast_ref::<wasmtime::Trap>() {
            Some(_) => InstancePoll::Trapped(e.to_string()),
            None => InstancePoll::LinkFailed(e.to_string()),
        },
    }
}

/// Resolve the named export as a niladic, void-returning function.
/// Relies on `wasmtime::Instance::get_func` (the instance's function
/// export of that name, or nothing) and `wasmtime::Func::typed` (fails
/// exactly when the actual signature differs): an instance exposes exactly
/// its module's exports, so for a name the instance records as a function
/// of that shape both steps succeed.  The backend treats a store that does
/// not own the instance as a caller fault, and the session types'
/// contracts keep every caller to the owning store.
#[verifier::external_body]
pub(crate) fn resolve_nullary(i: &RawInstance, s: &mut RawStore, name: &str) -> (r: Result<
    wasmtime::TypedFunc<(), ()>,
    String,
>)
    ensures
        model_has_nullary(instance_exports(*i), name@) ==> r is Ok,
{
    match i.inner.get_func(&mut s.inner, name) {
        None => Err(String::from("no function export of that name")),
        Some(f) => f.typed::<(), ()>(&s.inner).map_err(|e| e.to_string()),
    }
}

/// One guest invocation in flight: the pending continuation produced by the
/// backend, pinned so it can be polled step by step.
/// Relies on the backend's continuation staying valid while the function
/// handle and session it borrows are held by this value.
#[verifier::external_body]
pub struct CallFlight<'a> {
    inner: Pin<Box<dyn Future<Output = wasmtime::Result<()>> + 'a>>,
}

/// Begin a call of a type-checked export.  No guest instructions execute
/// yet; the returned flight is advanced by [`poll_call`].
/// Relies on `wasmtime::TypedFunc::call_async`; the backend treats a store
/// that does not own the function as a caller fault, and the session
/// types' contracts keep every caller to the owning store.
#[verifier::external_body]
pub(crate) fn begin_call<'a>(
    f: &'a wasmtime::TypedFunc<(), ()>,
    s: &'a mut RawStore,
) -> CallFlight<'a> {
    CallFlight { inner: Box::pin(f.call_async(&mut s.inner, ())) }
}

/// One non-blocking poll of an in-flight guest call, with an inert waker.
/// Relies on polling the backend's continuation; a failure is told apart as
/// a guest trap or a host-import failure by `wasmtime::Error::downcast_ref`.
#[verifier::external_body]
pub(crate) fn poll_call<'a>(f: &mut CallFlight<'a>) -> CallPoll {
    let mut cx = Context::from_waker(Waker::noop());
    match f.inner.as_mut().poll(&mut cx) {
        Poll::Pending => CallPoll::Pending,
        Poll::Ready(Ok(())) => CallPoll::Done,
        Poll::Ready(Err(e)) => match e.downcast_ref::<wasmtime::Trap>() {
            Some(_) => CallPoll::Trapped(e.to_string()),
            None => CallPoll::HostFailed(e.to_string()),
        },
    }
}

} // verus!
