//! The envelope: one captured payload, its reply sender, and an optional
//! scheduler guard, behind the uniform interface a mailbox stores.
//!
//! The pair of a payload and its reply sender may be consumed at most once:
//! every consuming operation empties the slot that holds it, and the state
//! machine is one-way, loaded to consumed. Dispatch of an already-consumed
//! envelope is a defect of the calling dispatch loop; it is reported as the
//! distinguished `Panicked` status and touches neither actor nor channel.

use vstd::prelude::*;
use vstd::string::StringExecFns;

use crate::actor::{ActorContext, ActorExitStatus, DebugMsg, Handler};
use crate::scheduler::NoAdvanceTimeGuard;

verus! {

/// The sentinel the debug representation shows once the payload is gone.
pub open spec fn consumed_marker() -> Seq<char> {
    "<consumed>"@
}

/// The debug representation of an envelope whose inner text is `inner`: the
/// inner text wrapped in the envelope's own label.
pub open spec fn envelope_debug_view(inner: Seq<char>) -> Seq<char> {
    "Envelope("@ + inner + ")"@
}

/// The single-message holder: the reply sender paired with the concrete
/// payload, or nothing once consumed. One such holder exists per captured
/// message; the envelope stores it behind its uniform interface.
pub struct HandlerEnvelope<A: Handler<M>, M: DebugMsg> {
    slot: Option<(tokio::sync::oneshot::Sender<<A as Handler<M>>::Reply>, M)>,
}

impl<A: Handler<M>, M: DebugMsg> HandlerEnvelope<A, M> {
    /// Whether the payload and its reply sender are still in place.
    pub closed spec fn is_loaded(&self) -> bool {
        self.slot is Some
    }

    /// The payload, while the holder is loaded.
    pub closed spec fn payload(&self) -> M
        recommends
            self.is_loaded(),
    {
        self.slot->Some_0.1
    }

    /// Textual form of the current payload, or the consumed sentinel. Never
    /// consumes anything and may be called any number of times.
    pub fn debug_msg(&self) -> (s: String)
        ensures
            self.is_loaded() ==> s@ == self.payload().debug_view(),
            !self.is_loaded() ==> s@ == consumed_marker(),
    {
        match &self.slot {
            Some((_response_tx, msg)) => msg.debug_string(),
            None => <String as StringExecFns>::from_str("<consumed>"),
        }
    }

    /// Removes and returns the payload for introspection, discarding the
    /// reply sender; once the slot is empty it yields nothing instead of
    /// failing. The same removal serves dispatch, so introspection and
    /// dispatch compete for the single use.
    pub fn message(&mut self) -> (m: Option<M>)
        ensures
            old(self).is_loaded() ==> m == Some(old(self).payload()),
            !old(self).is_loaded() ==> m is None,
            !final(self).is_loaded(),
    {
        match self.slot.take() {
            Some((_response_tx, msg)) => Some(msg),
            None => None,
        }
    }

    /// Dispatch: removes payload and reply sender in one step, runs the
    /// actor's handler for this payload type, and pushes the handler's reply
    /// into the channel, fire-and-forget. The result is exactly the Ok/Err
    /// mapping of an outcome the handler can produce for the stored payload
    /// and the given context. On an already-empty slot it reports the
    /// double-dispatch contract violation as `Panicked` and leaves the actor
    /// untouched — the handler is never invoked a second time.
    pub fn handle_message(&mut self, actor: &mut A, ctx: &ActorContext<A>) -> (r: Result<
        (),
        ActorExitStatus,
    >)
        ensures
            !final(self).is_loaded(),
            old(self).is_loaded() ==> (exists|
                am: &mut A,
                o: Result<<A as Handler<M>>::Reply, ActorExitStatus>,
            |
                #[trigger] call_ensures(<A as Handler<M>>::handle, (am, old(self).payload(), ctx), o)
                    && (o matches Ok(_) ==> r == Ok::<(), ActorExitStatus>(()))
                    && (o matches Err(e) ==> r == Err::<(), ActorExitStatus>(e))),
            !old(self).is_loaded() ==> r == Err::<(), ActorExitStatus>(
                ActorExitStatus::Panicked,
            ) && *final(actor) == *old(actor),
    {
        match self.slot.take() {
            Some((response_tx, msg)) => {
                let outcome = actor.handle(msg, ctx);
                proof {
                    assert(exists|am: &mut A|
                        call_ensures(
                            <A as Handler<M>>::handle,
                            (am, old(self).payload(), ctx),
                            outcome,
                        ));
                }
                deliver_reply(response_tx, outcome)
            },
            None => Err(ActorExitStatus::Panicked),
        }
    }
}

/// Pushes a handler outcome into the reply channel. A reply is sent
/// fire-and-forget: a send failure only means the original sender dropped its
/// receiver and is discarded as a normal occurrence. An exit status is
/// propagated unchanged, and the sender is dropped unsent, which resolves the
/// receiver to its cancelled outcome.
pub fn deliver_reply<R>(
    response_tx: tokio::sync::oneshot::Sender<R>,
    outcome: Result<R, ActorExitStatus>,
) -> (r: Result<(), ActorExitStatus>)
    ensures
        outcome is Ok ==> r == Ok::<(), ActorExitStatus>(()),
        outcome matches Err(e) ==> r == Err::<(), ActorExitStatus>(e),
{
    match outcome {
        Ok(response) => {
            let _ = response_tx.send(response);
            Ok(())
        },
        Err(exit_status) => Err(exit_status),
    }
}

/// The uniform unit of work a mailbox stores: one holder plus an optional
/// scheduler guard. The guard, when present, is held for the envelope's
/// entire lifetime and released exactly when the envelope is dropped — no
/// operation on the envelope gives it up earlier.
pub struct Envelope<A: Handler<M>, M: DebugMsg> {
    handler_envelope: HandlerEnvelope<A, M>,
    no_advance_time_guard: Option<NoAdvanceTimeGuard>,
}

impl<A: Handler<M>, M: DebugMsg> Envelope<A, M> {
    /// Whether the captured payload is still in place.
    pub closed spec fn is_loaded(&self) -> bool {
        self.handler_envelope.is_loaded()
    }

    /// The captured payload, while loaded.
    pub closed spec fn payload(&self) -> M
        recommends
            self.is_loaded(),
    {
        self.handler_envelope.payload()
    }

    /// The scheduler guard riding along, if any: the very one the factory
    /// was handed, until the envelope itself is dropped.
    pub closed spec fn guard(&self) -> Option<NoAdvanceTimeGuard> {
        self.no_advance_time_guard
    }

    /// Returns the message, emptying the envelope; nothing once consumed.
    ///
    /// This method is only useful in unit tests.
    pub fn message(&mut self) -> (m: Option<M>)
        ensures
            old(self).is_loaded() ==> m == Some(old(self).payload()),
            !old(self).is_loaded() ==> m is None,
            !final(self).is_loaded(),
            final(self).guard() == old(self).guard(),
    {
        self.handler_envelope.message()
    }

    /// Typed extraction: the captured payload at its concrete type. The first
    /// call on a loaded envelope returns the payload unchanged; every later
    /// call returns nothing, since extraction consumes the single use.
    pub fn message_typed(&mut self) -> (m: Option<M>)
        ensures
            old(self).is_loaded() ==> m == Some(old(self).payload()),
            !old(self).is_loaded() ==> m is None,
            !final(self).is_loaded(),
            final(self).guard() == old(self).guard(),
    {
        self.message()
    }

    /// Execute the captured handler against the actor, exactly once, and
    /// propagate its outcome unchanged: the result is exactly the Ok/Err
    /// mapping of an outcome the handler can produce for the captured payload
    /// and the given context. A second call on the same envelope reports the
    /// contract violation as `Panicked` without re-invoking the handler. The
    /// guard stays in place either way: it belongs to the envelope's
    /// lifetime, not to dispatch.
    pub fn handle_message(&mut self, actor: &mut A, ctx: &ActorContext<A>) -> (r: Result<
        (),
        ActorExitStatus,
    >)
        ensures
            !final(self).is_loaded(),
            final(self).guard() == old(self).guard(),
            old(self).is_loaded() ==> (exists|
                am: &mut A,
                o: Result<<A as Handler<M>>::Reply, ActorExitStatus>,
            |
                #[trigger] call_ensures(<A as Handler<M>>::handle, (am, old(self).payload(), ctx), o)
                    && (o matches Ok(_) ==> r == Ok::<(), ActorExitStatus>(()))
                    && (o matches Err(e) ==> r == Err::<(), ActorExitStatus>(e))),
            !old(self).is_loaded() ==> r == Err::<(), ActorExitStatus>(
                ActorExitStatus::Panicked,
            ) && *final(actor) == *old(actor),
    {
        let r = self.handler_envelope.handle_message(actor, ctx);
        proof {
            if old(self).is_loaded() {
                let (am, o) = choose|
                    am: &mut A,
                    o: Result<<A as Handler<M>>::Reply, ActorExitStatus>,
                |
                    #[trigger] call_ensures(
                        <A as Handler<M>>::handle,
                        (am, old(self).handler_envelope.payload(), ctx),
                        o,
                    )
                        && (o matches Ok(_) ==> r == Ok::<(), ActorExitStatus>(()))
                        && (o matches Err(e) ==> r == Err::<(), ActorExitStatus>(e));
                assert(call_ensures(<A as Handler<M>>::handle, (am, old(self).payload(), ctx), o));
            }
        }
        r
    }

    /// Debug representation: the payload's textual form wrapped in the
    /// envelope's label while loaded, the consumed sentinel afterwards —
    /// whichever consuming operation ran. Callable any number of times.
    pub fn debug_msg(&self) -> (s: String)
        ensures
            self.is_loaded() ==> s@ == envelope_debug_view(self.payload().debug_view()),
            !self.is_loaded() ==> s@ == envelope_debug_view(consumed_marker()),
    {
        let inner = self.handler_envelope.debug_msg();
        let mut s = <String as StringExecFns>::from_str("Envelope(");
        s.append(inner.as_str());
        s.append(")");
        s
    }
}

/// The factory, and the only construction path: builds a fresh single-use
/// reply channel, loads a holder with the sending half and the payload, and
/// wraps it with the supplied guard. The envelope goes to the mailbox; the
/// receiving half goes back to the original sender, which may await the
/// eventual reply or discard it.
pub fn wrap_in_envelope<A: Handler<M>, M: DebugMsg>(
    msg: M,
    no_advance_time_guard: Option<NoAdvanceTimeGuard>,
) -> (r: (Envelope<A, M>, tokio::sync::oneshot::Receiver<<A as Handler<M>>::Reply>))
    ensures
        r.0.is_loaded(),
        r.0.payload() == msg,
        r.0.guard() == no_advance_time_guard,
{
    let (response_tx, response_rx) = tokio::sync::oneshot::channel();
    let handler_envelope = HandlerEnvelope { slot: Some((response_tx, msg)) };
    let envelope = Envelope { handler_envelope, no_advance_time_guard };
    (envelope, response_rx)
}

} // verus!
