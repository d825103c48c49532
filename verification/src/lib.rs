//! Verified core of a bridge that re-delivers "device topology changed"
//! notifications of the platform's MIDI subsystem to one replaceable callback.
//!
//! The platform wants one dedicated thread to own its event loop, and a client
//! to be created on that thread before anything is delivered. This crate holds
//! every decision of that arrangement as sequential, verified code:
//!
//! * [`slot`]: the callback slot, which holds at most one callback;
//! * [`notifier`]: the process-wide subsystem, that is the slot, the one-time
//!   startup handshake as seen by the caller that starts it, and the verdict of
//!   that handshake, which is written once and answers every later caller;
//! * [`notifier_thread`]: what the dedicated thread does, step by step;
//! * [`error`]: the failures and their messages;
//! * [`laws`]: what holds over whole runs of the subsystem.
//!
//! Nothing here blocks, spawns or talks to the platform. A caller performs each
//! [`notifier::Action`] and reports what came of it as a [`notifier::Event`].

pub mod error;
pub mod laws;
pub mod notifier;
pub mod notifier_thread;
pub mod slot;
pub mod verdict;

use crate::notifier::{Custody, Notifier, Step};
use vstd::prelude::*;

verus! {

/// Registers `device_update` as the callback that device notifications
/// invoke, in place of any callback registered before, through this function
/// or the other. The first registration in a process starts the subsystem: the
/// answer is then the first step of the handshake, and the registration is over
/// when the handshake is. The notifier thread keeps the client handle.
///
/// The callback may be invoked several times within milliseconds when devices
/// change.
pub fn receive_device_updates<C, H>(notifier: &mut Notifier<C, H>, device_update: C) -> (step: Step<
    C,
    H,
>)
    ensures
        (final(notifier)@, step) == old(notifier)@.register(
            device_update,
            Custody::RetainedByNotifier,
        ),
{
    notifier.register(device_update, Custody::RetainedByNotifier)
}

/// As [`receive_device_updates`], but the caller gets the client handle when
/// the handshake ends well. The handle can be had at the first startup only:
/// from a subsystem that is ready the callback is still taken, and the answer
/// is "already initialized". Whoever gets the handle must not drop it:
/// notifications stop when it goes.
pub fn get_client_and_receive_device_updates<C, H>(
    notifier: &mut Notifier<C, H>,
    device_update: C,
) -> (step: Step<C, H>)
    ensures
        (final(notifier)@, step) == old(notifier)@.register(
            device_update,
            Custody::ReturnedToCaller,
        ),
{
    notifier.register(device_update, Custody::ReturnedToCaller)
}

} // verus!
