use actor_envelope::actor::{Actor, ActorContext, ActorExitStatus, DebugMsg, Handler};
use actor_envelope::envelope::wrap_in_envelope;
use actor_envelope::scheduler::NoAdvanceTimeGuard;
use tokio::sync::oneshot;
use tokio::sync::oneshot::error::TryRecvError;

#[derive(Debug, Clone, Copy, PartialEq, Eq)]
struct Increment(u64);

impl DebugMsg for Increment {
    fn debug_string(&self) -> String {
        format!("Increment({})", self.0)
    }
}

#[derive(Debug, Clone, Copy, PartialEq, Eq)]
struct Fail;

impl DebugMsg for Fail {
    fn debug_string(&self) -> String {
        "Fail".to_string()
    }
}

struct Counter {
    count: u64,
}

impl Actor for Counter {}

impl Handler<Increment> for Counter {
    type Reply = u64;

    fn handle(
        &mut self,
        msg: Increment,
        _ctx: &ActorContext<Self>,
    ) -> Result<u64, ActorExitStatus> {
        self.count += msg.0;
        Ok(self.count)
    }
}

impl Handler<Fail> for Counter {
    type Reply = u64;

    fn handle(&mut self, _msg: Fail, _ctx: &ActorContext<Self>) -> Result<u64, ActorExitStatus> {
        Err(ActorExitStatus::Failure)
    }
}

#[test]
fn scenario_counter_increment() {
    let (mut env, mut rx) = wrap_in_envelope::<Counter, Increment>(Increment(5), None);
    let mut counter = Counter { count: 10 };
    let ctx = ActorContext::new();
    let outcome = env.handle_message(&mut counter, &ctx);
    assert_eq!(outcome, Ok(()));
    assert_eq!(counter.count, 15);
    assert_eq!(rx.try_recv(), Ok(15));
}

#[test]
fn scenario_double_dispatch() {
    let (mut env, mut rx) = wrap_in_envelope::<Counter, Increment>(Increment(5), None);
    let mut counter = Counter { count: 10 };
    let ctx = ActorContext::new();
    assert_eq!(env.handle_message(&mut counter, &ctx), Ok(()));
    assert_eq!(counter.count, 15);
    let second = env.handle_message(&mut counter, &ctx);
    assert_eq!(second, Err(ActorExitStatus::Panicked));
    assert_eq!(counter.count, 15);
    assert_eq!(rx.try_recv(), Ok(15));
}

#[test]
fn scenario_typed_extraction() {
    let (mut env, _rx) = wrap_in_envelope::<Counter, Increment>(Increment(5), None);
    assert_eq!(env.message_typed(), Some(Increment(5)));
    assert_eq!(env.message_typed(), None);
}

#[test]
fn scenario_receiver_dropped() {
    let (mut env, rx) = wrap_in_envelope::<Counter, Increment>(Increment(5), None);
    drop(rx);
    let mut counter = Counter { count: 10 };
    let ctx = ActorContext::new();
    let outcome = env.handle_message(&mut counter, &ctx);
    assert_eq!(outcome, Ok(()));
    assert_eq!(counter.count, 15);
}

#[test]
fn opaque_extraction_consumes() {
    let (mut env, _rx) = wrap_in_envelope::<Counter, Increment>(Increment(7), None);
    assert_eq!(env.message(), Some(Increment(7)));
    assert_eq!(env.message(), None);
}

#[test]
fn dispatch_after_extraction_is_violation() {
    let (mut env, mut rx) = wrap_in_envelope::<Counter, Increment>(Increment(5), None);
    assert_eq!(env.message_typed(), Some(Increment(5)));
    let mut counter = Counter { count: 10 };
    let ctx = ActorContext::new();
    let outcome = env.handle_message(&mut counter, &ctx);
    assert_eq!(outcome, Err(ActorExitStatus::Panicked));
    assert_eq!(counter.count, 10);
    assert_eq!(rx.try_recv(), Err(TryRecvError::Closed));
}

#[test]
fn debug_before_and_after_extraction() {
    let (mut env, _rx) = wrap_in_envelope::<Counter, Increment>(Increment(5), None);
    assert_eq!(env.debug_msg(), "Envelope(Increment(5))");
    assert_eq!(env.debug_msg(), "Envelope(Increment(5))");
    let _ = env.message_typed();
    assert_eq!(env.debug_msg(), "Envelope(<consumed>)");
}

#[test]
fn debug_after_dispatch() {
    let (mut env, _rx) = wrap_in_envelope::<Counter, Increment>(Increment(5), None);
    let mut counter = Counter { count: 10 };
    let ctx = ActorContext::new();
    let _ = env.handle_message(&mut counter, &ctx);
    assert_eq!(env.debug_msg(), "Envelope(<consumed>)");
}

#[test]
fn handler_error_is_propagated() {
    let (mut env, mut rx) = wrap_in_envelope::<Counter, Fail>(Fail, None);
    let mut counter = Counter { count: 10 };
    let ctx = ActorContext::new();
    let outcome = env.handle_message(&mut counter, &ctx);
    assert_eq!(outcome, Err(ActorExitStatus::Failure));
    assert_eq!(counter.count, 10);
    assert_eq!(rx.try_recv(), Err(TryRecvError::Closed));
}

#[test]
fn guard_released_exactly_at_envelope_drop() {
    let (release_tx, mut release_rx) = oneshot::channel::<()>();
    let guard = NoAdvanceTimeGuard::new(release_tx);
    let (mut env, mut rx) = wrap_in_envelope::<Counter, Increment>(Increment(5), Some(guard));
    assert_eq!(release_rx.try_recv(), Err(TryRecvError::Empty));
    let mut counter = Counter { count: 10 };
    let ctx = ActorContext::new();
    assert_eq!(env.handle_message(&mut counter, &ctx), Ok(()));
    assert_eq!(release_rx.try_recv(), Err(TryRecvError::Empty));
    assert_eq!(rx.try_recv(), Ok(15));
    drop(env);
    assert_eq!(release_rx.try_recv(), Err(TryRecvError::Closed));
}

#[test]
fn guard_released_when_envelope_discarded_undispatched() {
    let (release_tx, mut release_rx) = oneshot::channel::<()>();
    let guard = NoAdvanceTimeGuard::new(release_tx);
    let (env, mut rx) = wrap_in_envelope::<Counter, Increment>(Increment(5), Some(guard));
    assert_eq!(release_rx.try_recv(), Err(TryRecvError::Empty));
    drop(env);
    assert_eq!(release_rx.try_recv(), Err(TryRecvError::Closed));
    assert_eq!(rx.try_recv(), Err(TryRecvError::Closed));
}
