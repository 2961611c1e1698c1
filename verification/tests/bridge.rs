//! End-to-end tests of the bridge: compile, instantiate, look up, invoke and
//! pump real guest programs, with the driver standing in for the reactor.

use wasm_bridge::engine::create_engine;
use wasm_bridge::engine::DEFAULT_TOTAL_FUEL;
use wasm_bridge::engine::DEFAULT_YIELD_INTERVAL;
use wasm_bridge::errors::BridgeError;
use wasm_bridge::session::PumpOutcome;

const EMPTY_RUN: &str = "(module (func (export \"run\")))";
const LOOP_RUN: &str = "(module (func (export \"run\") (loop $l (br $l))))";
const SLEEP_RUN: &str =
    "(module (import \"host\" \"sleep\" (func $s)) (func (export \"run\") (call $s)))";

#[test]
fn empty_export_finishes_on_first_pump() {
    let engine = create_engine().unwrap();
    let module = engine.compile_module(EMPTY_RUN).unwrap();
    let mut store = engine.create_store().unwrap();
    let instance = store.create_instance(&engine, &module).unwrap();
    let handle = instance.lookup_function(&mut store, "run").unwrap();
    let mut running = handle.invoke(&mut store);
    assert!(!running.is_spent());
    assert_eq!(running.pump(), PumpOutcome::Finished(Ok(())));
    assert!(running.is_spent());
}

#[test]
fn compile_rejects_malformed_source() {
    let engine = create_engine().unwrap();
    let r = engine.compile_module("(module (func (export \"run\") (i32.add))");
    assert!(matches!(r, Err(BridgeError::Compile(_))));
}

#[test]
fn compile_rejects_invalid_body() {
    let engine = create_engine().unwrap();
    // Well-formed text, but the body leaves a value of the wrong arity.
    let r = engine.compile_module("(module (func (export \"run\") (i32.const 1)))");
    assert!(matches!(r, Err(BridgeError::Compile(_))));
}

#[test]
fn lookup_missing_export_is_not_found() {
    let engine = create_engine().unwrap();
    let module = engine.compile_module(EMPTY_RUN).unwrap();
    let mut store = engine.create_store().unwrap();
    let instance = store.create_instance(&engine, &module).unwrap();
    match instance.lookup_function(&mut store, "absent") {
        Err(BridgeError::NotFound(name)) => assert_eq!(name, "absent"),
        Err(other) => panic!("expected NotFound, got {:?}", other),
        Ok(_) => panic!("expected NotFound, got a handle"),
    }
}

#[test]
fn lookup_wrong_signature_is_mismatch() {
    let engine = create_engine().unwrap();
    let module = engine
        .compile_module("(module (func (export \"run\") (param i32)))")
        .unwrap();
    let mut store = engine.create_store().unwrap();
    let instance = store.create_instance(&engine, &module).unwrap();
    let r = instance.lookup_function(&mut store, "run");
    assert!(matches!(r, Err(BridgeError::SignatureMismatch(_))));
}

#[test]
fn lookup_non_function_export_is_mismatch() {
    let engine = create_engine().unwrap();
    let module = engine
        .compile_module("(module (memory (export \"mem\") 1) (func (export \"run\")))")
        .unwrap();
    let mut store = engine.create_store().unwrap();
    let instance = store.create_instance(&engine, &module).unwrap();
    let r = instance.lookup_function(&mut store, "mem");
    assert!(matches!(r, Err(BridgeError::SignatureMismatch(_))));
}

#[test]
fn infinite_loop_is_preempted_and_fails() {
    let engine = create_engine().unwrap();
    let module = engine.compile_module(LOOP_RUN).unwrap();
    let mut store = engine.create_store_with_fuel(10_000, 100).unwrap();
    let instance = store.create_instance(&engine, &module).unwrap();
    let handle = instance.lookup_function(&mut store, "run").unwrap();
    let mut running = handle.invoke(&mut store);
    let mut yields: u64 = 0;
    let mut pumps: u64 = 0;
    loop {
        assert!(pumps < 1_000_000, "preemption must be bounded");
        match running.pump() {
            PumpOutcome::NotFinished => {
                yields += 1;
                pumps += 1;
            }
            PumpOutcome::Finished(Err(BridgeError::Trap(_))) => break,
            other => panic!("expected a trap from budget exhaustion, got {:?}", other),
        }
    }
    assert!(yields > 0, "a finite budget slice must force at least one yield");
    assert!(running.is_spent());
}

#[test]
fn sleeping_guest_suspends_until_timer_fires() {
    let engine = create_engine().unwrap();
    let module = engine.compile_module(SLEEP_RUN).unwrap();
    let mut store = engine.create_store().unwrap();
    let instance = store.create_instance(&engine, &module).unwrap();
    let handle = instance.lookup_function(&mut store, "run").unwrap();
    let timer = store.timer();
    let mut running = handle.invoke(&mut store);
    assert_eq!(running.pump(), PumpOutcome::NotFinished);
    assert_eq!(running.pump(), PumpOutcome::NotFinished);
    timer.fire();
    assert_eq!(running.pump(), PumpOutcome::Finished(Ok(())));
    assert!(running.is_spent());
}

#[test]
fn failing_host_import_fails_the_pump() {
    let engine = create_engine().unwrap();
    let module = engine.compile_module(SLEEP_RUN).unwrap();
    let mut store = engine.create_store().unwrap();
    let instance = store.create_instance(&engine, &module).unwrap();
    let handle = instance.lookup_function(&mut store, "run").unwrap();
    let timer = store.timer();
    let mut running = handle.invoke(&mut store);
    assert_eq!(running.pump(), PumpOutcome::NotFinished);
    timer.fail();
    match running.pump() {
        PumpOutcome::Finished(Err(BridgeError::Execution(_))) => {}
        other => panic!("expected a host-import failure, got {:?}", other),
    }
}

#[test]
fn compiling_twice_yields_identical_export_names() {
    let engine = create_engine().unwrap();
    let wat = "(module (memory (export \"mem\") 1) (func (export \"run\")) (func (export \"other\")))";
    let m1 = engine.compile_module(wat).unwrap();
    let m2 = engine.compile_module(wat).unwrap();
    assert_eq!(m1.export_names(), m2.export_names());
    assert_eq!(m1.export_names(), vec![
        String::from("mem"),
        String::from("run"),
        String::from("other"),
    ]);
}

#[test]
fn instance_exposes_module_exports() {
    let engine = create_engine().unwrap();
    let module = engine.compile_module(EMPTY_RUN).unwrap();
    let mut store = engine.create_store().unwrap();
    let instance = store.create_instance(&engine, &module).unwrap();
    assert_eq!(instance.export_names(), module.export_names());
    assert_eq!(instance.export_names(), vec![String::from("run")]);
}

#[test]
fn store_records_its_budget_and_refill_policy() {
    let engine = create_engine().unwrap();
    let store = engine.create_store_with_fuel(123, 7).unwrap();
    assert_eq!(store.fuel_budget(), 123);
    assert_eq!(store.fuel_yield_interval(), 7);
    let fresh = engine.create_store().unwrap();
    assert_eq!(fresh.fuel_budget(), DEFAULT_TOTAL_FUEL);
    assert_eq!(fresh.fuel_yield_interval(), DEFAULT_YIELD_INTERVAL);
}

#[test]
fn guest_memory_is_usable_with_exact_fit_policy() {
    let engine = create_engine().unwrap();
    let module = engine
        .compile_module(
            "(module (memory 1) (func (export \"run\") (i32.store (i32.const 0) (i32.const 42))))",
        )
        .unwrap();
    let mut store = engine.create_store().unwrap();
    let instance = store.create_instance(&engine, &module).unwrap();
    let handle = instance.lookup_function(&mut store, "run").unwrap();
    let mut running = handle.invoke(&mut store);
    assert_eq!(running.pump(), PumpOutcome::Finished(Ok(())));
}

#[test]
fn one_store_hosts_instances_sequentially() {
    let engine = create_engine().unwrap();
    let module = engine.compile_module(EMPTY_RUN).unwrap();
    let mut store = engine.create_store().unwrap();
    let first = store.create_instance(&engine, &module).unwrap();
    let second = store.create_instance(&engine, &module).unwrap();
    for instance in [&first, &second] {
        let handle = instance.lookup_function(&mut store, "run").unwrap();
        let mut running = handle.invoke(&mut store);
        assert_eq!(running.pump(), PumpOutcome::Finished(Ok(())));
    }
}

#[test]
fn unknown_import_fails_to_link() {
    let engine = create_engine().unwrap();
    let module = engine
        .compile_module("(module (import \"host\" \"nap\" (func)))")
        .unwrap();
    let mut store = engine.create_store().unwrap();
    let r = store.create_instance(&engine, &module);
    assert!(matches!(r, Err(BridgeError::Link(_))));
}

#[test]
fn trapping_start_function_fails_instantiation() {
    let engine = create_engine().unwrap();
    let module = engine
        .compile_module("(module (func $main (unreachable)) (start $main))")
        .unwrap();
    let mut store = engine.create_store().unwrap();
    let r = store.create_instance(&engine, &module);
    assert!(matches!(r, Err(BridgeError::Trap(_))));
}

#[test]
fn each_sleep_takes_its_own_timer_operation() {
    let engine = create_engine().unwrap();
    let module = engine
        .compile_module(
            "(module (import \"host\" \"sleep\" (func $s)) (func (export \"run\") (call $s) (call $s)))",
        )
        .unwrap();
    let mut store = engine.create_store().unwrap();
    let instance = store.create_instance(&engine, &module).unwrap();
    let handle = instance.lookup_function(&mut store, "run").unwrap();
    let timer = store.timer();
    let mut running = handle.invoke(&mut store);
    assert_eq!(running.pump(), PumpOutcome::NotFinished);
    timer.fire();
    // The first sleep completes, but the second takes its own fresh
    // operation and must still be pending.
    assert_eq!(running.pump(), PumpOutcome::NotFinished);
    timer.fire();
    assert_eq!(running.pump(), PumpOutcome::Finished(Ok(())));
}

#[test]
fn zero_yield_interval_is_rejected() {
    let engine = create_engine().unwrap();
    let r = engine.create_store_with_fuel(10, 0);
    assert!(matches!(r, Err(BridgeError::Configuration(_))));
}

#[test]
fn guest_trap_is_reported_as_trap() {
    let engine = create_engine().unwrap();
    let module = engine
        .compile_module("(module (func (export \"run\") (unreachable)))")
        .unwrap();
    let mut store = engine.create_store().unwrap();
    let instance = store.create_instance(&engine, &module).unwrap();
    let handle = instance.lookup_function(&mut store, "run").unwrap();
    let mut running = handle.invoke(&mut store);
    match running.pump() {
        PumpOutcome::Finished(Err(BridgeError::Trap(_))) => {}
        other => panic!("expected a trap, got {:?}", other),
    }
}
