//! Unit tests of the bridge's pure pieces: the external future adapter's
//! outcome mapping, the pump-outcome settlement, and the timer handle.

use wasm_bridge::adapter::AdapterPoll;
use wasm_bridge::adapter::ExternalPoll;
use wasm_bridge::adapter::FutureAdapter;
use wasm_bridge::adapter::ticket_report;
use wasm_bridge::adapter::TimerHandle;
use wasm_bridge::backend::CallPoll;
use wasm_bridge::errors::BridgeError;
use wasm_bridge::session::classify_poll;
use wasm_bridge::session::PumpOutcome;

#[test]
fn adapter_forwards_pending_without_spending() {
    let mut a = FutureAdapter::new();
    assert!(!a.is_spent());
    assert_eq!(a.step(ExternalPoll::Pending), AdapterPoll::NotReady);
    assert!(!a.is_spent());
}

#[test]
fn adapter_reports_ready_exactly_once() {
    let mut a = FutureAdapter::new();
    assert_eq!(a.step(ExternalPoll::Pending), AdapterPoll::NotReady);
    assert_eq!(a.step(ExternalPoll::Ready), AdapterPoll::Done);
    assert!(a.is_spent());
    assert_eq!(a.step_guarded(ExternalPoll::Ready), AdapterPoll::NotReady);
    assert!(a.is_spent());
}

#[test]
fn adapter_reports_failure_exactly_once() {
    let mut a = FutureAdapter::new();
    let r = a.step(ExternalPoll::Failed(String::from("timer broke")));
    assert_eq!(r, AdapterPoll::Error(String::from("timer broke")));
    assert!(a.is_spent());
    assert_eq!(
        a.step_guarded(ExternalPoll::Failed(String::from("again"))),
        AdapterPoll::NotReady
    );
}

#[test]
fn settlement_maps_each_backend_report() {
    assert_eq!(classify_poll(CallPoll::Pending), PumpOutcome::NotFinished);
    assert_eq!(classify_poll(CallPoll::Done), PumpOutcome::Finished(Ok(())));
    assert_eq!(
        classify_poll(CallPoll::Trapped(String::from("boom"))),
        PumpOutcome::Finished(Err(BridgeError::Trap(String::from("boom"))))
    );
    assert_eq!(
        classify_poll(CallPoll::HostFailed(String::from("sleep failed"))),
        PumpOutcome::Finished(Err(BridgeError::Execution(String::from("sleep failed"))))
    );
}

fn poll_ticket(t: &TimerHandle, ticket: u64) -> ExternalPoll {
    let (completed, poisoned) = t.poll_status();
    ticket_report(ticket, completed, poisoned)
}

#[test]
fn timer_tickets_complete_in_order() {
    let t = TimerHandle::new();
    let first = t.take_ticket();
    let second = t.take_ticket();
    assert_eq!(poll_ticket(&t, first), ExternalPoll::Pending);
    assert_eq!(poll_ticket(&t, second), ExternalPoll::Pending);
    t.fire();
    assert_eq!(poll_ticket(&t, first), ExternalPoll::Ready);
    assert_eq!(poll_ticket(&t, second), ExternalPoll::Pending);
    let shared = t.share();
    shared.fire();
    assert_eq!(poll_ticket(&t, second), ExternalPoll::Ready);
}

#[test]
fn failed_timer_reports_failure() {
    let t = TimerHandle::new();
    let ticket = t.take_ticket();
    t.fail();
    assert!(matches!(poll_ticket(&t, ticket), ExternalPoll::Failed(_)));
}

#[test]
fn ticket_settlement_covers_each_case() {
    assert_eq!(ticket_report(0, 1, false), ExternalPoll::Ready);
    assert_eq!(ticket_report(1, 1, false), ExternalPoll::Pending);
    assert_eq!(ticket_report(3, 0, false), ExternalPoll::Pending);
    assert!(matches!(ticket_report(0, 5, true), ExternalPoll::Failed(_)));
}

#[test]
fn error_messages_carry_their_diagnostic() {
    let e = BridgeError::NotFound(String::from("run"));
    assert_eq!(e.message().as_str(), "run");
    let e = BridgeError::Compile(String::from("bad text"));
    assert_eq!(e.message().as_str(), "bad text");
}
