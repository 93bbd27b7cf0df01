//! The signals that ask the daemon to shut down. They do nothing at once:
//! each sets a flag, which the daemon reads between two connections.

use vstd::prelude::*;
use std::sync::atomic::AtomicBool;
use std::sync::Arc;

verus! {

/// The interrupt signal's number.
pub const SIGINT: i32 = 2;

/// The quit signal's number.
pub const SIGQUIT: i32 = 3;

/// The terminate signal's number.
pub const SIGTERM: i32 = 15;

/// One of the three signals that ask for a shutdown.
pub open spec fn is_shutdown_signal(signal: i32) -> bool {
    signal == SIGINT || signal == SIGTERM || signal == SIGQUIT
}

/// `signal_hook::flag::register`: has every later delivery of `signal` set
/// `flag`, and says whether that could be arranged. The function panics on
/// the signals it forbids (kill, stop, illegal instruction, floating-point
/// error, segmentation fault); the three shutdown signals are none of
/// them. Nothing is claimed of the answer: it is the operating system's.
#[verifier::external_body]
fn register_flag(signal: i32, flag: &Arc<AtomicBool>) -> (registered: bool)
    requires
        is_shutdown_signal(signal),
{
    signal_hook::flag::register(signal, Arc::clone(flag)).is_ok()
}

/// Has the interrupt, the terminate and the quit signal set `flag`, in
/// this order, and stops at the first that cannot be registered, which it
/// returns. Whether a registration succeeds is for the operating system to
/// say.
pub fn register_shutdown(flag: &Arc<AtomicBool>) -> (r: Result<(), i32>)
    ensures
        r is Err ==> is_shutdown_signal(r->Err_0),
{
    let mut done: usize = 0;
    loop
        invariant
            done <= SHUTDOWN_SIGNALS,
        decreases SHUTDOWN_SIGNALS - done,
    {
        match signal_to_register(done) {
            None => {
                return Ok(());
            },
            Some(signal) => match registration_result(signal, register_flag(signal, flag)) {
                Ok(()) => {},
                Err(refused) => {
                    return Err(refused);
                },
            },
        }
        done += 1;
    }
}

/// How many signals ask for a shutdown.
pub const SHUTDOWN_SIGNALS: usize = 3;

/// The signal that is registered when `done` signals have been: interrupt,
/// then terminate, then quit, then none.
pub open spec fn signal_after(done: usize) -> Option<i32> {
    if done == 0 {
        Some(SIGINT)
    } else if done == 1 {
        Some(SIGTERM)
    } else if done == 2 {
        Some(SIGQUIT)
    } else {
        None
    }
}

/// The signal to register next when `done` signals have been registered,
/// or none when all three have been.
pub fn signal_to_register(done: usize) -> (r: Option<i32>)
    ensures
        r == signal_after(done),
        r is Some <==> done < SHUTDOWN_SIGNALS,
        r is Some ==> is_shutdown_signal(r->Some_0),
{
    if done == 0 {
        Some(SIGINT)
    } else if done == 1 {
        Some(SIGTERM)
    } else if done == 2 {
        Some(SIGQUIT)
    } else {
        None
    }
}

/// What the answer to one registration means for the daemon's start: a
/// signal that was registered is no obstacle, and one that was not is the
/// reason why the start fails.
pub fn registration_result(signal: i32, registered: bool) -> (r: Result<(), i32>)
    ensures
        r == (if registered {
            Ok::<(), i32>(())
        } else {
            Err::<(), i32>(signal)
        }),
{
    if registered {
        Ok(())
    } else {
        Err(signal)
    }
}

} // verus!
