//! The process-wide subsystem: the callback slot, the one-time startup
//! handshake as the starting caller sees it, and its verdict.
//!
//! A [`Notifier`] never blocks and never touches the platform. A registration
//! or a report returns a [`Step`]; where that is [`Step::Perform`], the caller
//! carries the [`Action`] out and reports what came of it with
//! [`Notifier::advance`]. The handshake runs in this order:
//!
//! 1. the probe is armed: the slot takes a sanity callback that only signals
//!    that a notification came through;
//! 2. the notifier thread is spawned and creates the client;
//! 3. the self-test endpoint is created with the client handle;
//! 4. the thread is told whether it keeps the handle, and goes into the
//!    event loop;
//! 5. the caller's callback replaces the sanity callback, which stays armed
//!    as the probe, and the caller waits for the probe's signal;
//! 6. the visible endpoints are listed and must hold the self-test endpoint.
//!
//! Whatever ends the handshake is the verdict, for good.

use crate::error::NotifierError;
use crate::slot::CallbackSlot;
use crate::verdict::{Outcome, Verdict};
use vstd::prelude::*;

verus! {

/// How many seconds the caller waits for the self-test notification.
pub const SANITY_TIMEOUT_SECS: u64 = 1;

/// The name of the self-test endpoint.
pub open spec fn virtual_device_text() -> Seq<char> {
    "device-detection-virtual-device"@
}

/// The name under which the client is created.
pub open spec fn client_device_text() -> Seq<char> {
    "device-detection-client"@
}

/// The name to create the self-test endpoint with.
pub fn virtual_device_name() -> (name: &'static str)
    ensures
        name@ == virtual_device_text(),
{
    "device-detection-virtual-device"
}

/// The name to create the client with.
pub fn client_device_name() -> (name: &'static str)
    ensures
        name@ == client_device_text(),
{
    "device-detection-client"
}

/// Who holds the client handle once the handshake is over. The handle goes to
/// exactly one of the two, and the choice is made once, when the startup is
/// asked for.
#[derive(Clone, Copy, Debug, PartialEq, Eq, Structural)]
pub enum Custody {
    /// The notifier thread keeps the handle for as long as the process lives.
    RetainedByNotifier,
    /// The caller that started the subsystem gets the handle.
    ReturnedToCaller,
}

/// Where the handshake stands. Every variant but `Idle` names what the
/// starting caller is waiting for.
#[derive(Debug, PartialEq, Eq)]
pub enum Phase<C, H> {
    /// No handshake is under way.
    Idle,
    /// The sanity callback is being made.
    Arming { callback: C, custody: Custody },
    /// The notifier thread was spawned and is creating the client.
    AwaitingClient { callback: C, custody: Custody },
    /// The handle is out to create the self-test endpoint.
    AwaitingEndpoint { callback: C, custody: Custody },
    /// The notifier thread is being told whether it keeps the handle.
    AwaitingDelivery { callback: C, kept: Option<H> },
    /// The callback is installed; the probe's signal is awaited.
    AwaitingSignal { probe: Option<C>, kept: Option<H> },
    /// The signal came; the visible endpoints are being listed.
    AwaitingEndpoints { kept: Option<H> },
}

/// What the caller is to do next.
#[derive(Debug, PartialEq, Eq)]
pub enum Action<H> {
    /// Make the sanity callback, which signals the caller when it is invoked,
    /// and report it with [`Event::ProbeArmed`].
    ArmProbe,
    /// Spawn the notifier thread and wait for its first message.
    SpawnNotifier,
    /// Create the self-test endpoint with this handle and hand the handle back.
    CreateEndpoint(H),
    /// Send this to the notifier thread: the handle if the thread keeps it,
    /// nothing if the caller does.
    Proceed(Option<H>),
    /// Wait for the probe's signal, at most this many seconds.
    AwaitSignal(u64),
    /// List the names of the endpoints that are visible now.
    ListEndpoints,
}

/// What came of an action.
#[derive(Debug, PartialEq, Eq)]
pub enum Event<C, H> {
    /// The sanity callback was made.
    ProbeArmed(C),
    /// The notifier thread created the client.
    ClientReady(H),
    /// The platform refused to create the client, with this status code.
    ClientRefused(i32),
    /// The self-test endpoint was created.
    EndpointCreated(H),
    /// The platform refused to create the self-test endpoint.
    EndpointRefused(i32),
    /// The notifier thread took the message.
    ProceedDelivered,
    /// The probe signalled.
    SignalArrived,
    /// The probe did not signal in time.
    SignalTimedOut,
    /// The names of the visible endpoints; an endpoint may have none.
    EndpointsListed(Vec<Option<String>>),
    /// The other end of a handshake channel was gone.
    ChannelClosed,
}

/// The answer to a registration or to a report.
#[derive(Debug, PartialEq, Eq)]
pub enum Step<C, H> {
    /// Carry this out and report with [`Notifier::advance`].
    Perform(Action<H>),
    /// The registration is over. `Ok` carries the client handle where the
    /// caller is the one to have it.
    Finished(Result<Option<H>, NotifierError>),
    /// Another caller's startup is under way. The callback comes back: ask
    /// again once that startup has ended.
    Busy(C),
}

/// The states of the subsystem, as far as a caller can tell them apart.
#[derive(Clone, Copy, Debug, PartialEq, Eq, Structural)]
pub enum Lifecycle {
    /// Nobody has asked for a callback yet.
    Uninitialized,
    /// The first startup is under way.
    Starting,
    /// The startup succeeded.
    Ready,
    /// The startup failed, with this failure.
    Failed(NotifierError),
}

/// Whether `entry` is an endpoint named `wanted`.
pub open spec fn is_named(entry: Option<String>, wanted: Seq<char>) -> bool {
    entry matches Some(name) && name@ == wanted
}

/// Whether one of `names` is `wanted`.
pub open spec fn lists_endpoint(names: Seq<Option<String>>, wanted: Seq<char>) -> bool {
    exists|i: int| 0 <= i < names.len() && is_named(#[trigger] names[i], wanted)
}

/// Whether an endpoint named `wanted` is among `names`.
pub fn endpoint_listed(names: &Vec<Option<String>>, wanted: &str) -> (found: bool)
    ensures
        found == lists_endpoint(names@, wanted@),
{
    let wanted_name = String::from_str(wanted);
    let mut i: usize = 0;
    while i < names.len()
        invariant
            i <= names.len(),
            wanted_name@ == wanted@,
            forall|j: int| 0 <= j < i ==> !is_named(#[trigger] names@[j], wanted@),
        decreases names.len() - i,
    {
        match &names[i] {
            Some(name) => {
                if *name == wanted_name {
                    assert(is_named(names@[i as int], wanted@));
                    return true;
                }
            },
            None => {},
        }
        i += 1;
    }
    false
}

/// The subsystem as a value: what [`Notifier`] stands for in contracts.
pub struct NotifierState<C, H> {
    /// The verdict of the startup, once it has ended.
    pub verdict: Option<Outcome>,
    /// Where the handshake stands while there is no verdict.
    pub phase: Phase<C, H>,
    /// What the callback slot holds.
    pub slot: Option<C>,
}

impl<C, H> NotifierState<C, H> {
    /// The state of a subsystem that nobody has used.
    pub open spec fn fresh() -> Self {
        NotifierState { verdict: None, phase: Phase::Idle, slot: None }
    }

    /// The state as a caller can tell it.
    pub open spec fn lifecycle(self) -> Lifecycle {
        match self.verdict {
            Some(Ok(_)) => Lifecycle::Ready,
            Some(Err(error)) => Lifecycle::Failed(error),
            None => if self.phase is Idle {
                Lifecycle::Uninitialized
            } else {
                Lifecycle::Starting
            },
        }
    }

    /// This state with the handshake ended by `outcome`.
    pub open spec fn settled(self, outcome: Outcome) -> Self {
        NotifierState { verdict: Some(outcome), phase: Phase::Idle, slot: self.slot }
    }

    /// This state in another phase of the handshake.
    pub open spec fn moved_to(self, phase: Phase<C, H>) -> Self {
        NotifierState { verdict: self.verdict, phase, slot: self.slot }
    }

    /// This state with `callback` in the slot.
    pub open spec fn holding(self, callback: C) -> Self {
        NotifierState { verdict: self.verdict, phase: self.phase, slot: Some(callback) }
    }

    /// The handshake fails with `error`.
    pub open spec fn fail(self, error: NotifierError) -> (Self, Step<C, H>) {
        (self.settled(Err(error)), Step::Finished(Err(error)))
    }

    /// What a registration of `callback` does, and what it answers.
    ///
    /// A subsystem that is ready takes the callback at once; the handle
    /// cannot be had from it any more. One whose startup failed answers with
    /// that failure and takes nothing. The first registration starts the
    /// handshake, and one that comes while it runs is turned back.
    pub open spec fn register(self, callback: C, custody: Custody) -> (Self, Step<C, H>) {
        match self.lifecycle() {
            Lifecycle::Ready => (
                self.holding(callback),
                match custody {
                    Custody::RetainedByNotifier => Step::Finished(Ok(None)),
                    Custody::ReturnedToCaller => Step::Finished(
                        Err(NotifierError::AlreadyInitialized),
                    ),
                },
            ),
            Lifecycle::Failed(error) => (self, Step::Finished(Err(error))),
            Lifecycle::Uninitialized => (
                self.moved_to(Phase::Arming { callback, custody }),
                Step::Perform(Action::ArmProbe),
            ),
            Lifecycle::Starting => (self, Step::Busy(callback)),
        }
    }

    /// What the report of `event` does, and what it answers.
    ///
    /// While the handshake runs, the event that the phase waits for moves it
    /// on, a refusal of the platform or a missed self-test ends it with that
    /// failure, and anything else ends it as a failure to communicate. With no
    /// handshake under way a report changes nothing.
    pub open spec fn advance(self, event: Event<C, H>) -> (Self, Step<C, H>) {
        if self.lifecycle() != Lifecycle::Starting {
            (self, Step::Finished(Err(NotifierError::Communication)))
        } else {
            match (self.phase, event) {
                (Phase::Arming { callback, custody }, Event::ProbeArmed(probe)) => (
                    self.moved_to(Phase::AwaitingClient { callback, custody }).holding(probe),
                    Step::Perform(Action::SpawnNotifier),
                ),
                (Phase::AwaitingClient { callback, custody }, Event::ClientReady(handle)) => (
                    self.moved_to(Phase::AwaitingEndpoint { callback, custody }),
                    Step::Perform(Action::CreateEndpoint(handle)),
                ),
                (Phase::AwaitingClient { .. }, Event::ClientRefused(status)) => self.fail(
                    NotifierError::Platform(status),
                ),
                (
                    Phase::AwaitingEndpoint { callback, custody },
                    Event::EndpointCreated(handle),
                ) => match custody {
                    Custody::RetainedByNotifier => (
                        self.moved_to(Phase::AwaitingDelivery { callback, kept: None }),
                        Step::Perform(Action::Proceed(Some(handle))),
                    ),
                    Custody::ReturnedToCaller => (
                        self.moved_to(Phase::AwaitingDelivery { callback, kept: Some(handle) }),
                        Step::Perform(Action::Proceed(None)),
                    ),
                },
                (Phase::AwaitingEndpoint { .. }, Event::EndpointRefused(status)) => self.fail(
                    NotifierError::Platform(status),
                ),
                (Phase::AwaitingDelivery { callback, kept }, Event::ProceedDelivered) => (
                    self.moved_to(Phase::AwaitingSignal { probe: self.slot, kept }).holding(
                        callback,
                    ),
                    Step::Perform(Action::AwaitSignal(SANITY_TIMEOUT_SECS)),
                ),
                (Phase::AwaitingSignal { kept, .. }, Event::SignalArrived) => (
                    self.moved_to(Phase::AwaitingEndpoints { kept }),
                    Step::Perform(Action::ListEndpoints),
                ),
                (Phase::AwaitingSignal { .. }, Event::SignalTimedOut) => self.fail(
                    NotifierError::SanityCheck,
                ),
                (Phase::AwaitingEndpoints { kept }, Event::EndpointsListed(names)) => {
                    if lists_endpoint(names@, virtual_device_text()) {
                        (self.settled(Ok(())), Step::Finished(Ok(kept)))
                    } else {
                        self.fail(NotifierError::SanityCheck)
                    }
                },
                _ => self.fail(NotifierError::Communication),
            }
        }
    }

    /// The probe that a notification is to signal now: the sanity callback,
    /// from the moment the caller's callback displaced it until its signal
    /// was taken.
    pub open spec fn armed_probe(self) -> Option<C> {
        if self.lifecycle() == Lifecycle::Starting && self.phase is AwaitingSignal {
            self.phase->probe
        } else {
            None
        }
    }

    /// This state after the event loop came back: the slot is empty.
    pub open spec fn loop_exited(self) -> Self {
        NotifierState { verdict: self.verdict, phase: self.phase, slot: None }
    }
}

/// What a notification is to invoke.
pub struct Dispatch<'a, C> {
    /// The armed probe, while the startup waits for its signal.
    pub probe: Option<&'a C>,
    /// The callback in the slot. Where there is none, the notification is
    /// only worth a diagnostic.
    pub callback: Option<&'a C>,
}

/// Whether `shown` refers to what `held` holds.
pub open spec fn shows<C>(shown: Option<&C>, held: Option<C>) -> bool {
    match shown {
        Some(callback) => held == Some(*callback),
        None => held is None,
    }
}

/// The subsystem: one per process.
pub struct Notifier<C, H> {
    verdict: Verdict,
    phase: Phase<C, H>,
    slot: CallbackSlot<C>,
}

impl<C, H> View for Notifier<C, H> {
    type V = NotifierState<C, H>;

    closed spec fn view(&self) -> NotifierState<C, H> {
        NotifierState { verdict: self.verdict@, phase: self.phase, slot: self.slot@ }
    }
}

impl<C, H> Notifier<C, H> {
    /// A subsystem that nobody has used: no verdict, no handshake, an empty
    /// slot.
    pub fn new() -> (notifier: Self)
        ensures
            notifier@ == NotifierState::<C, H>::fresh(),
    {
        Notifier { verdict: Verdict::open(), phase: Phase::Idle, slot: CallbackSlot::empty() }
    }

    /// The state as a caller can tell it.
    pub fn lifecycle(&self) -> (lifecycle: Lifecycle)
        ensures
            lifecycle == self@.lifecycle(),
    {
        match self.verdict.get() {
            Some(Ok(_)) => Lifecycle::Ready,
            Some(Err(error)) => Lifecycle::Failed(error),
            None => match &self.phase {
                Phase::Idle => Lifecycle::Uninitialized,
                _ => Lifecycle::Starting,
            },
        }
    }

    /// Registers `callback` as the one to invoke from now on, and starts the
    /// subsystem if this is the first registration.
    pub fn register(&mut self, callback: C, custody: Custody) -> (step: Step<C, H>)
        ensures
            (final(self)@, step) == old(self)@.register(callback, custody),
    {
        match self.lifecycle() {
            Lifecycle::Ready => {
                self.slot.install(callback);
                match custody {
                    Custody::RetainedByNotifier => Step::Finished(Ok(None)),
                    Custody::ReturnedToCaller => Step::Finished(
                        Err(NotifierError::AlreadyInitialized),
                    ),
                }
            },
            Lifecycle::Failed(error) => Step::Finished(Err(error)),
            Lifecycle::Uninitialized => {
                self.phase = Phase::Arming { callback, custody };
                Step::Perform(Action::ArmProbe)
            },
            Lifecycle::Starting => Step::Busy(callback),
        }
    }

    /// Ends the handshake with `error`.
    fn fail(&mut self, error: NotifierError) -> (step: Step<C, H>)
        requires
            old(self)@.verdict is None,
        ensures
            (final(self)@, step) == old(self)@.fail(error),
    {
        self.verdict.record(Err(error));
        self.phase = Phase::Idle;
        Step::Finished(Err(error))
    }

    /// Takes the report of what came of the last action and answers with the
    /// next step of the handshake, or with its end.
    pub fn advance(&mut self, event: Event<C, H>) -> (step: Step<C, H>)
        ensures
            (final(self)@, step) == old(self)@.advance(event),
    {
        match self.lifecycle() {
            Lifecycle::Starting => {},
            _ => {
                return Step::Finished(Err(NotifierError::Communication));
            },
        }
        let mut phase = Phase::Idle;
        core::mem::swap(&mut self.phase, &mut phase);
        match (phase, event) {
            (Phase::Arming { callback, custody }, Event::ProbeArmed(probe)) => {
                self.slot.install(probe);
                self.phase = Phase::AwaitingClient { callback, custody };
                Step::Perform(Action::SpawnNotifier)
            },
            (Phase::AwaitingClient { callback, custody }, Event::ClientReady(handle)) => {
                self.phase = Phase::AwaitingEndpoint { callback, custody };
                Step::Perform(Action::CreateEndpoint(handle))
            },
            (Phase::AwaitingClient { .. }, Event::ClientRefused(status)) => self.fail(
                NotifierError::Platform(status),
            ),
            (Phase::AwaitingEndpoint { callback, custody }, Event::EndpointCreated(handle)) => {
                match custody {
                    Custody::RetainedByNotifier => {
                        self.phase = Phase::AwaitingDelivery { callback, kept: None };
                        Step::Perform(Action::Proceed(Some(handle)))
                    },
                    Custody::ReturnedToCaller => {
                        self.phase = Phase::AwaitingDelivery { callback, kept: Some(handle) };
                        Step::Perform(Action::Proceed(None))
                    },
                }
            },
            (Phase::AwaitingEndpoint { .. }, Event::EndpointRefused(status)) => self.fail(
                NotifierError::Platform(status),
            ),
            (Phase::AwaitingDelivery { callback, kept }, Event::ProceedDelivered) => {
                let probe = self.slot.install(callback);
                self.phase = Phase::AwaitingSignal { probe, kept };
                Step::Perform(Action::AwaitSignal(SANITY_TIMEOUT_SECS))
            },
            (Phase::AwaitingSignal { kept, .. }, Event::SignalArrived) => {
                self.phase = Phase::AwaitingEndpoints { kept };
                Step::Perform(Action::ListEndpoints)
            },
            (Phase::AwaitingSignal { .. }, Event::SignalTimedOut) => self.fail(
                NotifierError::SanityCheck,
            ),
            (Phase::AwaitingEndpoints { kept }, Event::EndpointsListed(names)) => {
                if endpoint_listed(&names, virtual_device_name()) {
                    self.verdict.record(Ok(()));
                    Step::Finished(Ok(kept))
                } else {
                    self.fail(NotifierError::SanityCheck)
                }
            },
            _ => self.fail(NotifierError::Communication),
        }
    }

    /// What a notification is to invoke now: the armed probe, if the startup
    /// waits for its signal, and the callback in the slot, if there is one.
    pub fn dispatch(&self) -> (dispatch: Dispatch<'_, C>)
        ensures
            shows(dispatch.probe, self@.armed_probe()),
            shows(dispatch.callback, self@.slot),
    {
        let probe = match self.lifecycle() {
            Lifecycle::Starting => match &self.phase {
                Phase::AwaitingSignal { probe, .. } => probe.as_ref(),
                _ => None,
            },
            _ => None,
        };
        Dispatch { probe, callback: self.slot.current() }
    }

    /// Records that the event loop came back, which it is not meant to do:
    /// the slot is emptied, so that the broken pipeline shows. Returns the
    /// callback that was in it.
    pub fn loop_exited(&mut self) -> (displaced: Option<C>)
        ensures
            final(self)@ == old(self)@.loop_exited(),
            displaced == old(self)@.slot,
    {
        self.slot.clear()
    }
}

/// The handle for a caller that asked for it: the handle if the registration
/// brought one, and "already initialized" if it ended well without one.
pub fn claimed<H>(result: Result<Option<H>, NotifierError>) -> (claimed: Result<H, NotifierError>)
    ensures
        claimed == match result {
            Ok(Some(handle)) => Ok::<H, NotifierError>(handle),
            Ok(None) => Err(NotifierError::AlreadyInitialized),
            Err(error) => Err(error),
        },
{
    match result {
        Ok(Some(handle)) => Ok(handle),
        Ok(None) => Err(NotifierError::AlreadyInitialized),
        Err(error) => Err(error),
    }
}

} // verus!
