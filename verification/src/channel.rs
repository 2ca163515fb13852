//! Trusted boundary to the single-use reply channel.
//!
//! The reply channel is tokio's oneshot pair: the sending half is moved into
//! the envelope, the receiving half goes back to the original sender. The
//! declarations here are what the rest of the library is verified against.

use vstd::prelude::*;

verus! {

/// The sending half of tokio's single-use channel; an envelope holds one per
/// captured payload. Declared so it can stand in fields and signatures.
#[verifier::external_type_specification]
#[verifier::external_body]
#[verifier::reject_recursive_types(T)]
pub struct ExSender<T>(tokio::sync::oneshot::Sender<T>);

/// The receiving half of tokio's single-use channel; the factory hands it
/// back to the original sender, which may await it or drop it.
#[verifier::external_type_specification]
#[verifier::external_body]
#[verifier::reject_recursive_types(T)]
pub struct ExReceiver<T>(tokio::sync::oneshot::Receiver<T>);

/// The error a receiver resolves to when the sending half was dropped
/// without sending; declared only so the receiver's type is fully known.
#[verifier::external_type_specification]
#[verifier::external_body]
pub struct ExRecvError(tokio::sync::oneshot::error::RecvError);

/// Relies on tokio::sync::oneshot::channel: builds a fresh linked
/// sender/receiver pair. Which values later travel through the pair is
/// runtime behaviour of the channel, so nothing is stated here.
pub assume_specification<T>[ tokio::sync::oneshot::channel::<T> ]() -> (r: (
    tokio::sync::oneshot::Sender<T>,
    tokio::sync::oneshot::Receiver<T>,
));

/// Relies on tokio::sync::oneshot::Sender::send: consumes the sender, never
/// blocks, and either delivers the value or — when the receiving half was
/// already dropped — hands exactly that value back as the error.
pub assume_specification<T>[ tokio::sync::oneshot::Sender::<T>::send ](
    sender: tokio::sync::oneshot::Sender<T>,
    t: T,
) -> (r: Result<(), T>)
    ensures
        r matches Err(v) ==> v == t,
;

} // verus!
