use vstd::prelude::*;

use crate::errors::LifecycleError;
use crate::shutdown::make_shutdown_channel;

verus! {

/// Abstract registry state: `true` when a server is claimed (a shutdown
/// sender is stored), `false` when the registry is idle. The executable
/// operations below are specified through these four functions, so that
/// laws about call sequences can be stated and proved once, over the
/// abstract state.
pub open spec fn claim_succeeds(running: bool) -> bool {
    !running
}

/// After a `claim`, successful or rejected, a server is running: either the
/// claim stored a fresh handle, or one was already there.
pub open spec fn state_after_claim(running: bool) -> bool {
    true
}

pub open spec fn release_succeeds(running: bool) -> bool {
    running
}

/// After a `release`, successful or rejected, the registry is idle: either
/// the stored handle was taken, or there was none.
pub open spec fn state_after_release(running: bool) -> bool {
    false
}

/// Single source of truth for "is a server running", and holder of the
/// means to stop it: the sender half of the current server's shutdown
/// channel, if any. The host must serialize access (it holds the registry
/// behind a lock); here every operation takes `&mut self`, which is exactly
/// one linearized call at a time.
pub struct ServerRegistry {
    handle: Option<tokio::sync::oneshot::Sender<()>>,
}

impl ServerRegistry {
    /// Whether a shutdown handle is currently stored.
    pub closed spec fn is_running(&self) -> bool {
        self.handle is Some
    }

    /// How many live shutdown handles the registry holds.
    pub closed spec fn live_handles(&self) -> nat {
        if self.handle is Some {
            1
        } else {
            0
        }
    }

    /// A registry starts empty: no server is running.
    pub fn new() -> (r: ServerRegistry)
        ensures
            !r.is_running(),
    {
        ServerRegistry { handle: None }
    }

    /// Claims the registry for a new server: if a handle is already stored
    /// the claim is rejected with `AlreadyRunning` and nothing changes;
    /// otherwise a fresh shutdown channel is created, its sender is stored,
    /// and its receiver is returned for the server task to wait on.
    pub fn claim(&mut self) -> (r: Result<tokio::sync::oneshot::Receiver<()>, LifecycleError>)
        ensures
            final(self).is_running() == state_after_claim(old(self).is_running()),
            r is Ok <==> claim_succeeds(old(self).is_running()),
            r is Err ==> r == Err::<tokio::sync::oneshot::Receiver<()>, LifecycleError>(
                LifecycleError::AlreadyRunning,
            ) && *final(self) == *old(self),
    {
        if self.handle.is_some() {
            return Err(LifecycleError::AlreadyRunning);
        }
        let (tx, rx) = make_shutdown_channel();
        self.handle = Some(tx);
        Ok(rx)
    }

    /// Releases the registry: takes the stored sender out and returns it to
    /// the caller, who fires it. If no server was running the release is
    /// rejected with `NotRunning`. Either way the registry ends idle, and
    /// the taken sender exists nowhere else, so a second release cannot
    /// double-fire it.
    pub fn release(&mut self) -> (r: Result<tokio::sync::oneshot::Sender<()>, LifecycleError>)
        ensures
            final(self).is_running() == state_after_release(old(self).is_running()),
            r is Ok <==> release_succeeds(old(self).is_running()),
            r is Err ==> r == Err::<tokio::sync::oneshot::Sender<()>, LifecycleError>(
                LifecycleError::NotRunning,
            ) && *final(self) == *old(self),
    {
        match self.handle.take() {
            Some(tx) => Ok(tx),
            None => Err(LifecycleError::NotRunning),
        }
    }
}

/// Mutual exclusion invariant: whatever sequence of claims and releases
/// produced it, a registry never holds more than one live shutdown handle.
pub proof fn lemma_at_most_one_handle(r: ServerRegistry)
    ensures
        r.live_handles() <= 1,
{
}

/// Two claims in a row without an intervening release: the first, on an
/// idle registry, succeeds; the second is rejected. Claims are linearized
/// by the host's lock, so this also covers two concurrent starts: whichever
/// is ordered second observes `AlreadyRunning`, and exactly one succeeds.
pub proof fn lemma_second_claim_rejected(running: bool)
    requires
        !running,
    ensures
        claim_succeeds(running),
        !claim_succeeds(state_after_claim(running)),
{
}

/// No two claims both succeed, from any starting state and in either
/// linearization order.
pub proof fn lemma_claims_mutually_exclusive(running: bool)
    ensures
        !(claim_succeeds(running) && claim_succeeds(state_after_claim(running))),
{
}

/// A release on a registry on which no server was ever started — one that
/// is idle — is rejected with `NotRunning`.
pub proof fn lemma_release_idle_rejected(r: ServerRegistry)
    requires
        !r.is_running(),
    ensures
        !release_succeeds(r.is_running()),
{
}

/// Claim, release, claim: from an idle registry all three succeed — a
/// release correctly clears the registry, so a later start is accepted
/// again.
pub proof fn lemma_restart_after_release(running: bool)
    requires
        !running,
    ensures
        claim_succeeds(running),
        release_succeeds(state_after_claim(running)),
        claim_succeeds(state_after_release(state_after_claim(running))),
{
}

} // verus!
