//! What the dedicated notifier thread does, step by step.
//!
//! The thread creates the client, tells the starting caller about it, waits
//! to be told whether it keeps the client handle, and then runs the event loop,
//! which is not meant to come back. A [`ThreadState`] is the thread's whole
//! memory: the thread carries out each [`ThreadAction`] and reports what came
//! of it as a [`ThreadEvent`].

use vstd::prelude::*;

verus! {

/// Where the notifier thread stands.
#[derive(Debug, PartialEq, Eq)]
pub enum ThreadState<H> {
    /// The client is being created.
    CreatingClient,
    /// The client's handle went to the starting caller; its decision on the
    /// handle is awaited.
    AwaitingProceed,
    /// The platform's refusal went to the starting caller.
    Reporting,
    /// The event loop runs. The thread holds the handle if it was told to
    /// keep it, and holds it for as long as it is in this state.
    Looping(Option<H>),
    /// The thread is over.
    Stopped,
}

/// What the notifier thread is to do next.
#[derive(Debug, PartialEq, Eq)]
pub enum ThreadAction<H> {
    /// Create the client, with a handler that invokes what the subsystem's
    /// dispatch shows.
    CreateClient,
    /// Send the first handshake message. With `Ok`, send the handle together
    /// with the channel for the answer, and wait for the answer. With `Err`,
    /// send the platform's status code.
    Announce(Result<H, i32>),
    /// Run the event loop.
    RunLoop,
    /// The event loop came back: say so in the log and clear the callback
    /// slot.
    ClearSlot,
    /// Leave the thread.
    Stop,
    /// Leave the thread with a panic: the handshake channel failed.
    Abort,
}

/// What came of an action of the notifier thread.
#[derive(Debug, PartialEq, Eq)]
pub enum ThreadEvent<H> {
    /// The platform created the client.
    ClientCreated(H),
    /// The platform refused to create the client, with this status code.
    ClientRefused(i32),
    /// The refusal was sent.
    Reported,
    /// The starting caller answered: with the handle if the thread is to
    /// keep it, with nothing if the caller keeps it.
    Proceed(Option<H>),
    /// The other end of a handshake channel was gone.
    ChannelClosed,
    /// The event loop came back.
    LoopReturned,
}

impl<H> ThreadState<H> {
    /// The state after `event`, and what to do then.
    ///
    /// The event loop is entered on the caller's answer and on nothing else,
    /// so the handle's fate is settled before any notification can be
    /// delivered. A refusal of the platform is reported and ends the thread
    /// without the loop. A channel that fails, or an event out of turn, ends
    /// the thread with a panic.
    pub open spec fn next(self, event: ThreadEvent<H>) -> (Self, ThreadAction<H>) {
        match (self, event) {
            (ThreadState::CreatingClient, ThreadEvent::ClientCreated(handle)) => (
                ThreadState::AwaitingProceed,
                ThreadAction::Announce(Ok(handle)),
            ),
            (ThreadState::CreatingClient, ThreadEvent::ClientRefused(status)) => (
                ThreadState::Reporting,
                ThreadAction::Announce(Err(status)),
            ),
            (ThreadState::Reporting, ThreadEvent::Reported) => (
                ThreadState::Stopped,
                ThreadAction::Stop,
            ),
            (ThreadState::AwaitingProceed, ThreadEvent::Proceed(kept)) => (
                ThreadState::Looping(kept),
                ThreadAction::RunLoop,
            ),
            (ThreadState::Looping(_), ThreadEvent::LoopReturned) => (
                ThreadState::Stopped,
                ThreadAction::ClearSlot,
            ),
            (ThreadState::Stopped, _) => (ThreadState::Stopped, ThreadAction::Stop),
            _ => (ThreadState::Stopped, ThreadAction::Abort),
        }
    }

    /// The state of a thread that has just been spawned, and its first
    /// action.
    pub fn begin() -> (start: (Self, ThreadAction<H>))
        ensures
            start == (ThreadState::<H>::CreatingClient, ThreadAction::<H>::CreateClient),
    {
        (ThreadState::CreatingClient, ThreadAction::CreateClient)
    }

    /// Takes the report of what came of the last action and answers with the
    /// state to go on from and the next action.
    pub fn step(self, event: ThreadEvent<H>) -> (then: (Self, ThreadAction<H>))
        ensures
            then == self.next(event),
    {
        match (self, event) {
            (ThreadState::CreatingClient, ThreadEvent::ClientCreated(handle)) => (
                ThreadState::AwaitingProceed,
                ThreadAction::Announce(Ok(handle)),
            ),
            (ThreadState::CreatingClient, ThreadEvent::ClientRefused(status)) => (
                ThreadState::Reporting,
                ThreadAction::Announce(Err(status)),
            ),
            (ThreadState::Reporting, ThreadEvent::Reported) => (
                ThreadState::Stopped,
                ThreadAction::Stop,
            ),
            (ThreadState::AwaitingProceed, ThreadEvent::Proceed(kept)) => (
                ThreadState::Looping(kept),
                ThreadAction::RunLoop,
            ),
            (ThreadState::Looping(_), ThreadEvent::LoopReturned) => (
                ThreadState::Stopped,
                ThreadAction::ClearSlot,
            ),
            (ThreadState::Stopped, _) => (ThreadState::Stopped, ThreadAction::Stop),
            _ => (ThreadState::Stopped, ThreadAction::Abort),
        }
    }
}

/// Whether the event loop is entered in the course of `events`.
pub open spec fn enters_loop<H>(state: ThreadState<H>, events: Seq<ThreadEvent<H>>) -> bool
    decreases events.len(),
{
    if events.len() == 0 {
        false
    } else {
        ||| state.next(events[0]).1 is RunLoop
        ||| enters_loop(state.next(events[0]).0, events.skip(1))
    }
}

/// The loop waits for the decision: the event loop is entered only on the
/// starting caller's answer, and the thread then holds exactly what the
/// answer gave it.
pub proof fn lemma_loop_waits_for_decision<H>(state: ThreadState<H>, event: ThreadEvent<H>)
    requires
        state.next(event).1 is RunLoop,
    ensures
        state is AwaitingProceed,
        event is Proceed,
        state.next(event).0 == ThreadState::Looping(event->Proceed_0),
{
}

/// No loop after a refusal: once the platform has refused the client, or the
/// thread has stopped, nothing makes the thread enter the event loop.
pub proof fn lemma_no_loop_after_refusal<H>(state: ThreadState<H>, events: Seq<ThreadEvent<H>>)
    requires
        state is Reporting || state is Stopped,
    ensures
        !enters_loop(state, events),
    decreases events.len(),
{
    if events.len() > 0 {
        lemma_no_loop_after_refusal(state.next(events[0]).0, events.skip(1));
    }
}

/// One loop at most: the event loop is entered once, and after it came back
/// the thread is over.
pub proof fn lemma_loop_exit_ends_thread<H>(
    state: ThreadState<H>,
    event: ThreadEvent<H>,
    events: Seq<ThreadEvent<H>>,
)
    requires
        state is Looping,
    ensures
        state.next(event).0 is Stopped,
        state.next(event).1 is ClearSlot <==> event is LoopReturned,
        !enters_loop(state, seq![event] + events),
{
    let all = seq![event] + events;
    assert(all[0] == event);
    assert(all.skip(1) =~= events);
    lemma_no_loop_after_refusal(state.next(event).0, events);
}

} // verus!
