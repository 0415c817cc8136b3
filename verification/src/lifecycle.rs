use vstd::prelude::*;
use vstd::string::StringExecFns;

use crate::config::ServerConfig;
use crate::errors::LifecycleError;
use crate::registry::{
    claim_succeeds, release_succeeds, state_after_claim, state_after_release, ServerRegistry,
};
use crate::shutdown::fire_shutdown;

verus! {

/// Starts a server: claims the registry, and on success hands back the
/// configuration for the requested folder together with the shutdown
/// receiver the server task must race its serve loop against. The caller
/// spawns that task; this call itself does no I/O, so a rejected start is
/// side-effect free.
pub fn start(registry: &mut ServerRegistry, folder: String) -> (r: Result<
    (ServerConfig, tokio::sync::oneshot::Receiver<()>),
    LifecycleError,
>)
    ensures
        final(registry).is_running() == state_after_claim(old(registry).is_running()),
        r is Ok <==> claim_succeeds(old(registry).is_running()),
        r matches Ok(p) ==> p.0.folder@ == folder@,
        r matches Err(e) ==> e == LifecycleError::AlreadyRunning && *final(registry) == *old(
            registry,
        ),
{
    match registry.claim() {
        Ok(rx) => Ok((ServerConfig::new(folder), rx)),
        Err(e) => Err(e),
    }
}

/// Stops the running server: releases the registry and fires the taken
/// sender. Firing is best-effort — if the server task already exited, the
/// signal goes nowhere and that is fine. Returns without waiting for the
/// task to unwind.
pub fn stop(registry: &mut ServerRegistry) -> (r: Result<(), LifecycleError>)
    ensures
        final(registry).is_running() == state_after_release(old(registry).is_running()),
        r is Ok <==> release_succeeds(old(registry).is_running()),
        r matches Err(e) ==> e == LifecycleError::NotRunning && *final(registry) == *old(registry),
{
    match registry.release() {
        Ok(tx) => {
            fire_shutdown(tx);
            Ok(())
        },
        Err(e) => Err(e),
    }
}

/// Maps the outcome of the bind attempt, reported back by the server task's
/// host, to the message of a completed start: the bound URL on success,
/// `BindFailed` when the port was held by a foreign process.
pub fn bind_outcome(bound: bool) -> (r: Result<String, LifecycleError>)
    ensures
        bound <==> r is Ok,
        r matches Ok(m) ==> m@ == "Server started on http://127.0.0.1:8080"@,
        r matches Err(e) ==> e == LifecycleError::BindFailed,
{
    if bound {
        Ok(started_message())
    } else {
        Err(LifecycleError::BindFailed)
    }
}

/// The success message of `start`, including the bound URL.
pub fn started_message() -> (r: String)
    ensures
        r@ == "Server started on http://127.0.0.1:8080"@,
{
    String::from_str("Server started on http://127.0.0.1:8080")
}

/// The success message of `stop`.
pub fn stopped_message() -> (r: String)
    ensures
        r@ == "Server stopped"@,
{
    String::from_str("Server stopped")
}

/// The demo greeting command of the host shell.
pub fn greet(name: &str) -> (r: String)
    ensures
        r@ == "Hello, "@ + name@ + "! You've been greeted from Rust!"@,
{
    String::from_str("Hello, ").concat(name).concat("! You've been greeted from Rust!")
}

} // verus!
