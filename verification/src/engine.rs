//! Engine and module: the immutable, compiled side of the bridge.
//!
//! An engine is process-wide immutable configuration plus the compiled-code
//! backend; it produces modules and execution sessions.  A module is the
//! immutable compiled representation of one guest program.

use crate::backend;
use crate::backend::module_exports;
use crate::backend::module_imports_sleep_only;
use crate::backend::wat_compilation;
use crate::errors::BridgeError;
use crate::session::export_names_view;
use crate::session::Store;
use vstd::prelude::*;

verus! {

/// Stack available to guest call frames, in bytes.
pub const MAX_WASM_STACK_BYTES: usize = 128 * 1024;

/// Stack used for asynchronous suspension frames, in bytes.
pub const ASYNC_STACK_BYTES: usize = 256 * 1024;

/// Preemption budget granted to a session by [`Engine::create_store`]: a
/// hundred billion refills of one yield slice each, so only a runaway
/// guest exhausts it.
pub const DEFAULT_TOTAL_FUEL: u64 = 100_000_000_000 * 100_000_000;

/// Budget slice after which guest execution is forced to yield, as granted
/// by [`Engine::create_store`].
pub const DEFAULT_YIELD_INTERVAL: u64 = 100_000_000;

/// The one configuration every engine of this bridge is built with:
/// preemption accounting on, asynchronous suspension on, and guest linear
/// memory sized to exactly what is requested, with no eager reservation and
/// no guard padding.
pub open spec fn bridge_config() -> backend::ConfigModel {
    backend::ConfigModel {
        async_support: true,
        consume_fuel: true,
        memory_reservation: 0,
        memory_reservation_for_growth: 0,
        memory_guard_size: 0,
        max_wasm_stack: MAX_WASM_STACK_BYTES,
        async_stack_size: ASYNC_STACK_BYTES,
    }
}

/// Immutable configuration and compiled-code context.  Created once; every
/// module and session is derived from one engine and stays bound to it.
pub struct Engine {
    pub(crate) raw: backend::RawEngine,
    pub(crate) config: Ghost<backend::ConfigModel>,
}

impl Engine {
    /// The configuration this engine was built with.
    pub closed spec fn config(&self) -> backend::ConfigModel {
        self.config@
    }

    /// This engine's identity: modules and sessions record it, and every
    /// operation demands that the pieces it is handed belong together.
    pub closed spec fn engine_token(&self) -> backend::RawEngine {
        self.raw
    }
}

/// Build an engine.  On success the engine records the bridge's
/// configuration; it fails with [`BridgeError::Configuration`] exactly when
/// the compiled-code backend cannot be initialized with those limits.
pub fn create_engine() -> (r: Result<Engine, BridgeError>)
    ensures
        r matches Ok(en) ==> en.config() == bridge_config(),
        r matches Err(e) ==> e is Configuration,
{
    let mut config = backend::config_new();
    backend::config_async_support(&mut config, true);
    backend::config_consume_fuel(&mut config, true);
    backend::config_memory_reservation(&mut config, 0);
    backend::config_memory_reservation_for_growth(&mut config, 0);
    backend::config_memory_guard_size(&mut config, 0);
    backend::config_max_wasm_stack(&mut config, MAX_WASM_STACK_BYTES);
    backend::config_async_stack_size(&mut config, ASYNC_STACK_BYTES);
    match backend::engine_new(&config) {
        Ok(raw) => Ok(Engine { raw, config: Ghost(config.model@) }),
        Err(m) => Err(BridgeError::Configuration(m)),
    }
}

/// The immutable compiled representation of one guest program: the
/// backend's compiled form, and for each export, in declaration order, its
/// name and whether it is a function of the niladic, void-returning shape.
pub struct Module {
    pub(crate) raw: backend::RawModule,
    pub(crate) exports: Vec<(String, bool)>,
    pub(crate) src: Ghost<Seq<char>>,
    pub(crate) owner: Ghost<backend::RawEngine>,
}

impl Module {
    /// The source text this module was compiled from.
    pub closed spec fn source(&self) -> Seq<char> {
        self.src@
    }

    /// The module's export names, in declaration order.
    pub closed spec fn export_view(&self) -> Seq<Seq<char>> {
        export_names_view(self.exports@)
    }

    /// The module's export model: each export's name, and whether it is a
    /// function of the niladic, void-returning shape.
    pub closed spec fn export_model(&self) -> Seq<(Seq<char>, bool)> {
        self.exports@.map_values(|p: (String, bool)| (p.0@, p.1))
    }

    /// Whether this module was compiled by the given engine.
    pub closed spec fn compiled_by(&self, engine: &Engine) -> bool {
        self.owner@ == engine.engine_token()
    }

    /// Whether every import this module declares is the one capability the
    /// bridge binds: the asynchronous, niladic `host.sleep`.
    pub closed spec fn imports_sleep_only(&self) -> bool {
        module_imports_sleep_only(self.raw)
    }

    /// A module's carried export list is exactly what compiling its source
    /// text yields, and exactly what the compiled form itself holds.
    pub closed spec fn wf(&self) -> bool {
        &&& wat_compilation(self.src@) matches Some(exps) && exps.len() == self.exports@.len()
            && (forall|i: int|
            0 <= i < exps.len() ==> exps[i].0 == self.exports@[i].0@ && exps[i].1
                == self.exports@[i].1)
        &&& module_exports(self.raw).len() == self.exports@.len()
        &&& forall|i: int|
            0 <= i < self.exports@.len() ==> module_exports(self.raw)[i].0
                == self.exports@[i].0@ && module_exports(self.raw)[i].1 == self.exports@[i].1
    }

    /// The carried export list realizes the module's spec-level views, and
    /// a well-formed module's compiled form holds that same list.
    pub(crate) proof fn lemma_module_facts(&self)
        ensures
            self.export_view() == export_names_view(self.exports@),
            self.export_model() == self.exports@.map_values(|p: (String, bool)| (p.0@, p.1)),
            self.imports_sleep_only() == module_imports_sleep_only(self.raw),
            self.wf() ==> module_exports(self.raw).len() == self.exports@.len(),
            self.wf() ==> forall|i: int|
                0 <= i < self.exports@.len() ==> module_exports(self.raw)[i].0
                    == self.exports@[i].0@ && module_exports(self.raw)[i].1
                    == self.exports@[i].1,
    {
    }

    /// The module's export names, in declaration order.
    pub fn export_names(&self) -> (r: Vec<String>)
        ensures
            r@.map_values(|s: String| s@) == self.export_view(),
    {
        let mut out: Vec<String> = Vec::new();
        let mut i: usize = 0;
        while i < self.exports.len()
            invariant
                0 <= i <= self.exports@.len(),
                out@.len() == i,
                forall|j: int| 0 <= j < i ==> out@[j]@ == self.exports@[j].0@,
            decreases self.exports@.len() - i,
        {
            out.push(self.exports[i].0.clone());
            i += 1;
        }
        proof {
            assert(out@.map_values(|s: String| s@) =~= self.export_view());
        }
        out
    }
}

/// Law: compiling one source text twice yields two modules with identical
/// observable exports — the same names and the same signature shapes —
/// whichever engines compiled them.
pub proof fn lemma_compile_deterministic(m1: &Module, m2: &Module)
    requires
        m1.wf(),
        m2.wf(),
        m1.source() == m2.source(),
    ensures
        m1.export_model() == m2.export_model(),
        m1.export_view() == m2.export_view(),
{
    let exps = wat_compilation(m1.source())->Some_0;
    assert(m1.export_model() =~= m2.export_model()) by {
        assert forall|i: int| 0 <= i < m1.exports@.len() implies m1.export_model()[i]
            == m2.export_model()[i] by {
            assert(exps[i].0 == m1.exports@[i].0@ && exps[i].1 == m1.exports@[i].1);
            assert(exps[i].0 == m2.exports@[i].0@ && exps[i].1 == m2.exports@[i].1);
        }
    }
    assert(m1.export_view() =~= m2.export_view()) by {
        assert forall|i: int| 0 <= i < m1.exports@.len() implies m1.export_view()[i]
            == m2.export_view()[i] by {
            assert(exps[i].0 == m1.exports@[i].0@ && exps[i].0 == m2.exports@[i].0@);
        }
    }
}

impl Engine {
    /// Compile a guest source text.  Compilation succeeds exactly for text
    /// that passes validation; the module is then well formed, remembers
    /// the text it came from, and is bound to this engine.  On failure the
    /// [`BridgeError::Compile`] carries the diagnostic and no partial
    /// module is produced.
    pub fn compile_module(&self, wat: &str) -> (r: Result<Module, BridgeError>)
        ensures
            r is Ok <==> wat_compilation(wat@) is Some,
            r matches Ok(m) ==> m.wf() && m.source() == wat@ && m.compiled_by(self),
            r matches Err(e) ==> e is Compile,
    {
        match backend::compile_wat(&self.raw, wat) {
            Ok((raw, names, nullary)) => {
                let exports = zip_exports(names, nullary);
                let m = Module { raw, exports, src: Ghost(wat@), owner: Ghost(self.raw) };
                proof {
                    let exps = wat_compilation(wat@)->Some_0;
                    assert forall|i: int|
                        0 <= i < exps.len() implies exps[i].0 == m.exports@[i].0@ && exps[i].1
                        == m.exports@[i].1 by {
                        assert(m.exports@[i].0 == names@[i]);
                        assert(names@[i]@ == exps[i].0);
                        assert(m.exports@[i].1 == nullary@[i]);
                    }
                    assert forall|i: int|
                        0 <= i < m.exports@.len() implies module_exports(m.raw)[i].0
                        == m.exports@[i].0@ && module_exports(m.raw)[i].1
                        == m.exports@[i].1 by {
                        assert(m.exports@[i].0 == names@[i]);
                        assert(module_exports(m.raw)[i].0 == names@[i]@);
                        assert(module_exports(m.raw)[i].1 == nullary@[i]);
                        assert(m.exports@[i].1 == nullary@[i]);
                    }
                }
                Ok(m)
            }
            Err(m) => Err(BridgeError::Compile(m)),
        }
    }

    /// A fresh execution session with the default preemption policy; it
    /// always succeeds and the session is bound to this engine.
    pub fn create_store(&self) -> (r: Result<Store, BridgeError>)
        ensures
            r is Ok,
            r matches Ok(s) ==> s.total_fuel() == DEFAULT_TOTAL_FUEL && s.yield_interval()
                == DEFAULT_YIELD_INTERVAL && s.made_by() == self.engine_token(),
    {
        self.create_store_with_fuel(DEFAULT_TOTAL_FUEL, DEFAULT_YIELD_INTERVAL)
    }

    /// A fresh execution session.  The session is granted `total_fuel`
    /// preemption units for its whole lifetime and is forced to yield after
    /// each `yield_interval` units; setting both very low deterministically
    /// exercises the preemption path.  Creation succeeds exactly when the
    /// yield interval is not zero, the one value the backend's accounting
    /// rejects.
    pub fn create_store_with_fuel(&self, total_fuel: u64, yield_interval: u64) -> (r: Result<
        Store,
        BridgeError,
    >)
        ensures
            r is Ok <==> yield_interval != 0,
            r matches Ok(s) ==> s.total_fuel() == total_fuel && s.yield_interval()
                == yield_interval && s.made_by() == self.engine_token(),
            r matches Err(e) ==> e is Configuration,
    {
        if yield_interval == 0 {
            return Err(
                BridgeError::Configuration(
                    String::from_str("the yield interval must not be zero"),
                ),
            );
        }
        let mut raw = backend::store_new(&self.raw);
        match backend::store_set_fuel(&mut raw, total_fuel) {
            Ok(()) => {}
            Err(m) => {
                return Err(BridgeError::Configuration(m));
            }
        }
        match backend::store_set_yield_interval(&mut raw, yield_interval) {
            Ok(()) => {}
            Err(m) => {
                return Err(BridgeError::Configuration(m));
            }
        }
        Ok(
            Store::from_parts(
                raw,
                crate::adapter::TimerHandle::new(),
                total_fuel,
                yield_interval,
                Ghost(self.raw),
            ),
        )
    }
}

/// Pair each export name with its signature flag, in order.
fn zip_exports(names: Vec<String>, nullary: Vec<bool>) -> (r: Vec<(String, bool)>)
    requires
        names@.len() == nullary@.len(),
    ensures
        r@.len() == names@.len(),
        forall|i: int| 0 <= i < r@.len() ==> r@[i].0 == names@[i] && r@[i].1 == nullary@[i],
{
    let mut out: Vec<(String, bool)> = Vec::new();
    let mut i: usize = 0;
    while i < names.len()
        invariant
            0 <= i <= names@.len(),
            names@.len() == nullary@.len(),
            out@.len() == i,
            forall|j: int| 0 <= j < i ==> out@[j].0 == names@[j] && out@[j].1 == nullary@[j],
        decreases names@.len() - i,
    {
        out.push((names[i].clone(), nullary[i]));
        i += 1;
    }
    out
}

} // verus!
