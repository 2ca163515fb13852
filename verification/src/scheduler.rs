//! The scheduler's "do not advance simulated time" token.
//!
//! The envelope core never calls anything on the guard: its whole contract is
//! "release on destruction". Release is modelled as the closing of a
//! notification channel — the guard owns the sending half, and dropping the
//! guard (hence dropping the envelope that holds it) closes the channel the
//! time-advancement mechanism watches.

use vstd::prelude::*;

verus! {

/// Opaque, scope-bound token held by an envelope while its message is in
/// flight. It is released exactly when it is dropped: never earlier, and by
/// nothing else, since the envelope owns it exclusively.
pub struct NoAdvanceTimeGuard {
    release_tx: tokio::sync::oneshot::Sender<()>,
}

impl NoAdvanceTimeGuard {
    /// Wraps the notification sender the time-advancement mechanism listens
    /// on. The guard does nothing with it; its drop is the release signal.
    pub fn new(release_tx: tokio::sync::oneshot::Sender<()>) -> (g: NoAdvanceTimeGuard) {
        NoAdvanceTimeGuard { release_tx }
    }
}

} // verus!
