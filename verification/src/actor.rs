//! The collaborator contracts the envelope core consumes: the actor and
//! handler capabilities, the opaque execution context, and the exit-status
//! signal handlers return. None of this decides how actors are scheduled;
//! it is only the boundary the envelope dispatches across.

use vstd::prelude::*;

verus! {

/// Termination / error signal produced by an actor's handler and propagated
/// unchanged by dispatch. The envelope core never inspects it beyond passing
/// it along; `Panicked` additionally reports the one fatal contract violation
/// this core can detect itself, a dispatch of an already-consumed envelope.
#[derive(Clone, Copy, Debug, PartialEq, Eq, Structural)]
pub enum ActorExitStatus {
    Success,
    Quit,
    Killed,
    DownstreamClosed,
    Failure,
    Panicked,
}

/// Opaque execution token handed through to the handler. The envelope core
/// never reads anything out of it.
pub struct ActorContext<A> {
    marker: core::marker::PhantomData<A>,
}

impl<A> ActorContext<A> {
    pub fn new() -> (ctx: ActorContext<A>) {
        ActorContext { marker: core::marker::PhantomData }
    }
}

/// An actor owns per-instance state and receives messages through the
/// handlers it implements.
pub trait Actor: Sized {
}

/// A message type that can report a textual form of itself; the envelope's
/// debug representation is built from it while the payload is still present.
pub trait DebugMsg {
    /// The textual form, at the specification level. Left unspecified by
    /// default; a message type that wants the envelope's debug contract to
    /// pin its text down overrides it alongside `debug_string`.
    open spec fn debug_view(&self) -> Seq<char> {
        arbitrary()
    }

    /// The textual form, as the string the envelope embeds.
    fn debug_string(&self) -> (s: String)
        ensures
            s@ == self.debug_view(),
    ;
}

/// The handler an actor registers for one message type: it consumes the
/// message and produces either the reply associated with that message type
/// or an exit status. What it returns is the handler's own decision; dispatch
/// promises nothing about it beyond faithful propagation.
pub trait Handler<M>: Actor {
    type Reply;

    fn handle(&mut self, msg: M, ctx: &ActorContext<Self>) -> Result<Self::Reply, ActorExitStatus>;
}

} // verus!
