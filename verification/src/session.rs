//! Sessions and the pump protocol: the mutable, executing side of the
//! bridge.
//!
//! A store is one mutable execution session; an instance is a module linked
//! into a store; a function handle is a type-checked export; and a running
//! function is one in-flight invocation, advanced one non-blocking step at a
//! time by the external driver.  The store is passed by exclusive reference
//! to every operation that touches guest state, so at most one operation is
//! in flight per session at a time.  Each piece records, as ghost state,
//! the engine or session it was created against, and every operation
//! demands that the pieces it is handed belong together — using an
//! instance or handle with a foreign store is ruled out by contract, as the
//! backend treats it as a caller fault.

use crate::adapter::TimerHandle;
use crate::backend;
use crate::backend::CallFlight;
use crate::backend::CallPoll;
use crate::backend::InstancePoll;
use crate::engine::Engine;
use crate::engine::Module;
use crate::errors::BridgeError;
use vstd::prelude::*;

verus! {

/// How many inert-waker polls the self-driving instantiation loop makes
/// before giving up.  Guest start code is expected to finish in a handful
/// of polls; the bound only keeps a start function that waits forever on a
/// host import from hanging the bridge.
pub const INSTANTIATE_POLL_BOUND: u64 = 0xFFFF_FFFF;

/// The names of an export list, in order.
pub open spec fn export_names_view(list: Seq<(String, bool)>) -> Seq<Seq<char>> {
    list.map_values(|p: (String, bool)| p.0@)
}

/// Whether an export list holds the given name.
pub open spec fn has_export(list: Seq<(String, bool)>, name: Seq<char>) -> bool {
    exists|j: int| 0 <= j < list.len() && list[j].0@ == name
}

/// Whether an export list holds the given name as a function of the
/// niladic, void-returning shape.
pub open spec fn has_nullary_export(list: Seq<(String, bool)>, name: Seq<char>) -> bool {
    exists|j: int| 0 <= j < list.len() && list[j].0@ == name && list[j].1
}

/// Holding a name and the name standing in the view are the same thing.
pub proof fn lemma_has_export_iff_contains(list: Seq<(String, bool)>, name: Seq<char>)
    ensures
        has_export(list, name) <==> export_names_view(list).contains(name),
{
    if has_export(list, name) {
        let j = choose|j: int| 0 <= j < list.len() && list[j].0@ == name;
        assert(export_names_view(list)[j] == name);
    }
    if export_names_view(list).contains(name) {
        let j = choose|j: int|
            0 <= j < export_names_view(list).len() && export_names_view(list)[j] == name;
        assert(list[j].0@ == name);
    }
}

/// Whether the list holds the given name at all, and whether it holds it
/// as a function of the niladic, void-returning shape.
fn scan_export(list: &Vec<(String, bool)>, target: &str) -> (r: (bool, bool))
    ensures
        r.0 == has_export(list@, target@),
        r.1 == has_nullary_export(list@, target@),
{
    let owned = String::from_str(target);
    let mut found: bool = false;
    let mut nullary: bool = false;
    let mut i: usize = 0;
    while i < list.len()
        invariant
            0 <= i <= list@.len(),
            owned@ == target@,
            found ==> has_export(list@, target@),
            !found ==> forall|j: int| 0 <= j < i ==> list@[j].0@ != target@,
            nullary ==> has_nullary_export(list@, target@),
            !nullary ==> forall|j: int|
                0 <= j < i ==> !(list@[j].0@ == target@ && list@[j].1),
        decreases list@.len() - i,
    {
        if list[i].0 == owned {
            assert(list@[i as int].0@ == target@);
            found = true;
            if list[i].1 {
                nullary = true;
            }
        }
        i += 1;
    }
    (found, nullary)
}

/// Copy an export list.
fn clone_exports(list: &Vec<(String, bool)>) -> (r: Vec<(String, bool)>)
    ensures
        r@ == list@,
{
    let mut out: Vec<(String, bool)> = Vec::new();
    let mut i: usize = 0;
    while i < list.len()
        invariant
            0 <= i <= list@.len(),
            out@ == list@.subrange(0, i as int),
        decreases list@.len() - i,
    {
        out.push((list[i].0.clone(), list[i].1));
        i += 1;
    }
    proof {
        assert(out@ =~= list@);
    }
    out
}

/// One mutable execution session: the guest's preemption budget, refill
/// policy, linear memory, and the timer source its asynchronous host import
/// suspends on.  A store must be borrowed exclusively by every operation
/// that touches guest state, which is the bridge's whole synchronization
/// mechanism.
pub struct Store {
    pub(crate) raw: backend::RawStore,
    pub(crate) timer: TimerHandle,
    pub(crate) fuel: u64,
    pub(crate) yield_every: u64,
    pub(crate) owner: Ghost<backend::RawEngine>,
    pub(crate) token: Ghost<backend::RawStore>,
}

impl Store {
    /// Assemble a session around the backend's store, recording the budget
    /// and refill policy it was granted and the engine it was made by.
    pub(crate) fn from_parts(
        raw: backend::RawStore,
        timer: TimerHandle,
        fuel: u64,
        yield_every: u64,
        owner: Ghost<backend::RawEngine>,
    ) -> (s: Store)
        ensures
            s.total_fuel() == fuel,
            s.yield_interval() == yield_every,
            s.made_by() == owner@,
    {
        let ghost token = raw;
        Store { raw, timer, fuel, yield_every, owner, token: Ghost(token) }
    }

    /// The preemption budget this session was granted for its lifetime.
    pub closed spec fn total_fuel(&self) -> u64 {
        self.fuel
    }

    /// The budget slice after which guest execution is forced to yield.
    pub closed spec fn yield_interval(&self) -> u64 {
        self.yield_every
    }

    /// The identity of the engine this session was created by.
    pub closed spec fn made_by(&self) -> backend::RawEngine {
        self.owner@
    }

    /// This session's identity: instances and handles record it, and using
    /// them with another session is ruled out by contract.
    pub closed spec fn session_id(&self) -> backend::RawStore {
        self.token@
    }

    /// The preemption budget this session was granted for its lifetime.
    pub fn fuel_budget(&self) -> (r: u64)
        ensures
            r == self.total_fuel(),
    {
        self.fuel
    }

    /// The budget slice after which guest execution is forced to yield.
    pub fn fuel_yield_interval(&self) -> (r: u64)
        ensures
            r == self.yield_interval(),
    {
        self.yield_every
    }

    /// A handle to this session's timer source: the driver that stands in
    /// for the reactor completes or fails its pending operations.
    pub fn timer(&self) -> TimerHandle {
        self.timer.share()
    }

    /// Link a module into this session.  The module and the session must
    /// both belong to the given engine.  Every host capability the module
    /// may import is bound first — the asynchronous `host.sleep`, each call
    /// of which takes a fresh ticket on the session's timer source and
    /// suspends through the external future adapter — and then
    /// instantiation, which may itself run guest start code, is driven to
    /// completion by polling with an inert waker.  On success the instance
    /// carries exactly the module's export model and belongs to this
    /// session; a module that declares any import other than that one
    /// binding cannot link and fails with [`BridgeError::Link`], a link
    /// failure settles to [`BridgeError::Link`] and a trapping start
    /// function to [`BridgeError::Trap`], exactly as
    /// [`settle_instantiation`] states, and no partial instance is
    /// produced.  A start function that outlasts the polling bound fails
    /// with [`BridgeError::Trap`], its own budget-exhaustion condition.
    pub fn create_instance(&mut self, engine: &Engine, module: &Module) -> (r: Result<
        Instance,
        BridgeError,
    >)
        requires
            old(self).made_by() == engine.engine_token(),
            module.compiled_by(engine),
            module.wf(),
        ensures
            r matches Ok(i) ==> i.export_view() == module.export_view() && i.export_model()
                == module.export_model() && i.session() == old(self).session_id() && i.wf(),
            r is Ok ==> module.imports_sleep_only(),
            !module.imports_sleep_only() ==> (r matches Err(e) && e is Link),
            r matches Err(e) ==> e is Link || e is Trap,
            r matches Err(e) ==> (e is Trap ==> module.imports_sleep_only()),
            final(self).session_id() == old(self).session_id(),
            final(self).made_by() == old(self).made_by(),
            final(self).total_fuel() == old(self).total_fuel(),
            final(self).yield_interval() == old(self).yield_interval(),
    {
        let mut linker = backend::linker_new(&engine.raw);
        let ty = backend::nullary_func_type(&engine.raw);
        match backend::linker_bind_sleep(&mut linker, ty, &self.timer) {
            Ok(()) => {}
            Err(m) => {
                return Err(BridgeError::Link(m));
            }
        }
        let exports = clone_exports(&module.exports);
        let ghost session = self.token@;
        proof {
            module.lemma_module_facts();
        }
        let mut flight = backend::begin_instantiate(&linker, &mut self.raw, &module.raw);
        let mut polls: u64 = 0;
        while polls < INSTANTIATE_POLL_BOUND
            invariant
                exports@ == module.exports@,
                session == old(self).token@,
                self.fuel == old(self).fuel,
                self.yield_every == old(self).yield_every,
                self.owner == old(self).owner,
                self.token == old(self).token,
                module.wf(),
                backend::flight_exports(flight) == backend::module_exports(module.raw),
                backend::flight_imports_ok(flight) == backend::module_imports_sleep_only(
                    module.raw,
                ),
                module.imports_sleep_only() == backend::module_imports_sleep_only(module.raw),
                polls > 0 ==> backend::module_imports_sleep_only(module.raw),
            decreases INSTANTIATE_POLL_BOUND - polls,
        {
            let report = backend::poll_instantiate(&mut flight);
            if !report_is_pending(&report) {
                proof {
                    module.lemma_module_facts();
                }
                return settle_instantiation(report, clone_exports(&exports), Ghost(session));
            }
            polls += 1;
        }
        // A start function still pending after the whole polling budget has
        // exhausted the budget this self-driving loop grants it.
        Err(
            BridgeError::Trap(
                String::from_str("instantiation exhausted its self-driving poll budget"),
            ),
        )
    }
}

/// Whether an instantiation report asks for another poll.
fn report_is_pending(p: &InstancePoll) -> (r: bool)
    ensures
        r == (p is Pending),
{
    match p {
        InstancePoll::Pending => true,
        InstancePoll::Ready(_) => false,
        InstancePoll::LinkFailed(_) => false,
        InstancePoll::Trapped(_) => false,
    }
}

/// Settle a non-pending instantiation report into what the caller is told:
/// a ready report yields the instance, carrying the module's exports and
/// bound to the given session; a link failure settles to
/// [`BridgeError::Link`] and a trapped start to [`BridgeError::Trap`],
/// each carrying the backend's diagnostic.
pub fn settle_instantiation(
    p: InstancePoll,
    exports: Vec<(String, bool)>,
    session: Ghost<backend::RawStore>,
) -> (r: Result<Instance, BridgeError>)
    requires
        !(p is Pending),
        p matches InstancePoll::Ready(inst) ==> backend::instance_exports(inst).len()
            == exports@.len() && (forall|i: int|
            0 <= i < exports@.len() ==> backend::instance_exports(inst)[i].0
                == exports@[i].0@ && backend::instance_exports(inst)[i].1 == exports@[i].1),
    ensures
        r is Ok <==> p is Ready,
        r matches Ok(i) ==> i.export_view() == export_names_view(exports@) && i.export_model()
            == exports@.map_values(|q: (String, bool)| (q.0@, q.1)) && i.session() == session@
            && i.wf(),
        p matches InstancePoll::LinkFailed(m) ==> r == Err::<Instance, BridgeError>(
            BridgeError::Link(m),
        ),
        p matches InstancePoll::Trapped(m) ==> r == Err::<Instance, BridgeError>(
            BridgeError::Trap(m),
        ),
{
    match p {
        InstancePoll::Pending => Err(BridgeError::Link(String::from_str("still pending"))),
        InstancePoll::Ready(raw) => Ok(Instance { raw, exports, session }),
        InstancePoll::LinkFailed(m) => Err(BridgeError::Link(m)),
        InstancePoll::Trapped(m) => Err(BridgeError::Trap(m)),
    }
}

/// A module linked into one session.  Permanently bound to the store it was
/// created in; it owns no memory beyond what that store allocates for it.
pub struct Instance {
    pub(crate) raw: backend::RawInstance,
    pub(crate) exports: Vec<(String, bool)>,
    pub(crate) session: Ghost<backend::RawStore>,
}

impl Instance {
    /// The instance's export names, in declaration order.
    pub closed spec fn export_view(&self) -> Seq<Seq<char>> {
        export_names_view(self.exports@)
    }

    /// The instance's export model: each export's name, and whether it is
    /// a function of the niladic, void-returning shape.
    pub closed spec fn export_model(&self) -> Seq<(Seq<char>, bool)> {
        self.exports@.map_values(|p: (String, bool)| (p.0@, p.1))
    }

    /// Whether the instance exports the given name as a function of the
    /// niladic, void-returning shape.
    pub closed spec fn exports_nullary(&self, name: Seq<char>) -> bool {
        has_nullary_export(self.exports@, name)
    }

    /// The identity of the session this instance was created in.
    pub closed spec fn session(&self) -> backend::RawStore {
        self.session@
    }

    /// The instance's carried export list is exactly what the backend's
    /// linked instance holds.
    pub closed spec fn wf(&self) -> bool {
        backend::instance_exports(self.raw).len() == self.exports@.len() && (forall|i: int|
            0 <= i < self.exports@.len() ==> backend::instance_exports(self.raw)[i].0
                == self.exports@[i].0@ && backend::instance_exports(self.raw)[i].1
                == self.exports@[i].1)
    }

    /// The instance's export names, in declaration order.
    pub fn export_names(&self) -> (r: Vec<String>)
        ensures
            r@.map_values(|s: String| s@) == self.export_view(),
    {
        let mut out: Vec<String> = Vec::new();
        let mut i: usize = 0;
        while i < self.exports.len()
            invariant
                0 <= i <= self.exports@.len(),
                out@.len() == i,
                forall|j: int| 0 <= j < i ==> out@[j]@ == self.exports@[j].0@,
            decreases self.exports@.len() - i,
        {
            out.push(self.exports[i].0.clone());
            i += 1;
        }
        proof {
            assert(out@.map_values(|s: String| s@) =~= self.export_view());
        }
        out
    }

    /// Resolve an export by name to a type-checked function handle, in the
    /// session the instance belongs to.  A name the instance does not
    /// export fails with [`BridgeError::NotFound`] carrying that name —
    /// and only such a name does — so no running function can ever be
    /// created for it.  An export recorded as anything but a function of
    /// the supported niladic, void-returning shape fails with
    /// [`BridgeError::SignatureMismatch`]; a name recorded as such a
    /// function yields a handle.
    pub fn lookup_function(&self, store: &mut Store, func_name: &str) -> (r: Result<
        FunctionHandle,
        BridgeError,
    >)
        requires
            self.session() == old(store).session_id(),
            self.wf(),
        ensures
            !self.export_view().contains(func_name@) ==> (r matches Err(e) && e is NotFound),
            r matches Err(e) ==> (e is NotFound ==> !self.export_view().contains(func_name@)
                && e.message_view() == func_name@),
            r is Ok <==> self.exports_nullary(func_name@),
            self.export_view().contains(func_name@) && !self.exports_nullary(func_name@) ==> (
            r matches Err(e) && e is SignatureMismatch),
            r matches Err(e) ==> e is NotFound || e is SignatureMismatch,
            r matches Ok(h) ==> h.session() == old(store).session_id(),
            final(store).session_id() == old(store).session_id(),
            final(store).made_by() == old(store).made_by(),
            final(store).total_fuel() == old(store).total_fuel(),
            final(store).yield_interval() == old(store).yield_interval(),
    {
        proof {
            lemma_has_export_iff_contains(self.exports@, func_name@);
        }
        let (found, nullary) = scan_export(&self.exports, func_name);
        if !found {
            Err(BridgeError::NotFound(String::from_str(func_name)))
        } else if !nullary {
            Err(
                BridgeError::SignatureMismatch(
                    String::from_str("the export is not a niladic, void-returning function"),
                ),
            )
        } else {
            proof {
                let j = choose|j: int|
                    0 <= j < self.exports@.len() && self.exports@[j].0@ == func_name@
                        && self.exports@[j].1;
                assert(backend::instance_exports(self.raw)[j].0 == func_name@);
                assert(backend::model_has_nullary(
                    backend::instance_exports(self.raw),
                    func_name@,
                ));
            }
            match backend::resolve_nullary(&self.raw, &mut store.raw, func_name) {
                Ok(raw) => Ok(FunctionHandle { raw, session: Ghost(self.session@) }),
                Err(m) => Err(BridgeError::SignatureMismatch(m)),
            }
        }
    }
}

/// A resolved, type-checked reference to one exported guest entry point.
/// The supported signature is niladic and void-returning; that was checked
/// at lookup time.
pub struct FunctionHandle {
    pub(crate) raw: wasmtime::TypedFunc<(), ()>,
    pub(crate) session: Ghost<backend::RawStore>,
}

impl FunctionHandle {
    /// The identity of the session this handle was resolved in.
    pub closed spec fn session(&self) -> backend::RawStore {
        self.session@
    }

    /// Begin a call of this export, in the session the handle belongs to.
    /// No guest instructions execute yet; the store is borrowed exclusively
    /// until the returned running function is dropped or finishes, so only
    /// one invocation per session is ever in flight.
    pub fn invoke<'a>(&'a self, store: &'a mut Store) -> (r: RunningFunction<'a>)
        requires
            self.session() == old(store).session_id(),
        ensures
            !r.spent(),
            final(store).session_id() == old(store).session_id(),
            final(store).made_by() == old(store).made_by(),
            final(store).total_fuel() == old(store).total_fuel(),
            final(store).yield_interval() == old(store).yield_interval(),
    {
        RunningFunction { flight: backend::begin_call(&self.raw, &mut store.raw), done: false }
    }
}

/// What one pump of a running function reports to the external driver.
#[derive(Debug, PartialEq, Eq)]
pub enum PumpOutcome {
    /// The guest yielded on its preemption budget or is waiting on a
    /// pending host import; the driver decides when to pump again.
    NotFinished,
    /// The invocation is over: the guest returned normally, or failed with
    /// a [`BridgeError::Trap`] (guest fault or budget exhaustion) or a
    /// [`BridgeError::Execution`] (host import failure).
    Finished(Result<(), BridgeError>),
}

impl PumpOutcome {
    /// Whether this outcome asks the driver to pump again later.
    pub fn is_not_finished(&self) -> (r: bool)
        ensures
            r == (self is NotFinished),
    {
        match self {
            PumpOutcome::NotFinished => true,
            PumpOutcome::Finished(_) => false,
        }
    }
}

/// The outcome one backend report settles to: more work pending means "not
/// finished"; a normal return, a trap and a host-import failure each end
/// the invocation with the matching verdict.
pub open spec fn pump_outcome_of(p: CallPoll) -> PumpOutcome {
    match p {
        CallPoll::Pending => PumpOutcome::NotFinished,
        CallPoll::Done => PumpOutcome::Finished(Ok(())),
        CallPoll::Trapped(m) => PumpOutcome::Finished(Err(BridgeError::Trap(m))),
        CallPoll::HostFailed(m) => PumpOutcome::Finished(Err(BridgeError::Execution(m))),
    }
}

/// Settle one backend report into what the driver is told.
pub fn classify_poll(p: CallPoll) -> (r: PumpOutcome)
    ensures
        r == pump_outcome_of(p),
{
    match p {
        CallPoll::Pending => PumpOutcome::NotFinished,
        CallPoll::Done => PumpOutcome::Finished(Ok(())),
        CallPoll::Trapped(m) => PumpOutcome::Finished(Err(BridgeError::Trap(m))),
        CallPoll::HostFailed(m) => PumpOutcome::Finished(Err(BridgeError::Execution(m))),
    }
}

/// Law: a pump never reports completion while the underlying continuation
/// is still pending — success is reported exactly for a backend report of
/// normal completion, and "not finished" exactly for a pending one.
pub proof fn lemma_pump_completion_needs_ready(p: CallPoll)
    ensures
        pump_outcome_of(p) == PumpOutcome::Finished(Ok::<(), BridgeError>(())) <==> p is Done,
        pump_outcome_of(p) is NotFinished <==> p is Pending,
{
}

/// One in-flight invocation, exposing the pump protocol to the external
/// driver.  It exists only between invocation and completion or failure;
/// dropping it before it finishes silently abandons the call, and any
/// budget already consumed is not restored.
pub struct RunningFunction<'a> {
    flight: CallFlight<'a>,
    done: bool,
}

impl<'a> RunningFunction<'a> {
    /// Whether a pump has already reported completion or failure: a spent
    /// running function must not be pumped again.
    pub closed spec fn spent(&self) -> bool {
        self.done
    }

    /// Whether a pump has already reported completion or failure.
    pub fn is_spent(&self) -> (r: bool)
        ensures
            r == self.spent(),
    {
        self.done
    }

    /// Advance the invocation by exactly one non-blocking poll of the
    /// underlying continuation, with an inert waker: guest instructions run
    /// and any pending host-call continuation advances until the guest
    /// returns, fails, or suspends.  Deciding when to pump again is the
    /// driver's policy, not the bridge's.  A finished invocation spends the
    /// running function, and pumping it again is ruled out by contract.
    pub fn pump(&mut self) -> (r: PumpOutcome)
        requires
            !old(self).spent(),
        ensures
            final(self).spent() == !(r is NotFinished),
            r matches PumpOutcome::Finished(out) ==> (out matches Err(e) ==> e is Trap
                || e is Execution),
    {
        let p = backend::poll_call(&mut self.flight);
        let r = classify_poll(p);
        self.done = !r.is_not_finished();
        r
    }
}

} // verus!
