//! What holds over whole runs of the subsystem, whatever the callers and the
//! platform do and in whatever order.
//!
//! A run is a sequence of [`Input`]s, each applied to the state that the one
//! before it left. The callers of a process reach the subsystem one at a time,
//! so whatever they do together is such a run.

use crate::error::NotifierError;
use crate::notifier::{Action, Custody, Event, Lifecycle, NotifierState, Phase, Step};
use crate::notifier_thread::{ThreadEvent, ThreadState};
use vstd::prelude::*;

verus! {

/// One thing that happens to the subsystem.
pub enum Input<C, H> {
    /// A caller registers a callback.
    Register(C, Custody),
    /// The starting caller reports what came of an action.
    Report(Event<C, H>),
    /// The event loop came back.
    LoopExit,
}

/// The state after `input`.
pub open spec fn after<C, H>(state: NotifierState<C, H>, input: Input<C, H>) -> NotifierState<C, H> {
    match input {
        Input::Register(callback, custody) => state.register(callback, custody).0,
        Input::Report(event) => state.advance(event).0,
        Input::LoopExit => state.loop_exited(),
    }
}

/// Whether `input` makes the subsystem start its handshake.
pub open spec fn starts_handshake<C, H>(state: NotifierState<C, H>, input: Input<C, H>) -> bool {
    input matches Input::Register(callback, custody) && state.register(callback, custody).1
        == Step::<C, H>::Perform(Action::ArmProbe)
}

/// The state after all of `inputs`, in their order.
pub open spec fn after_all<C, H>(state: NotifierState<C, H>, inputs: Seq<Input<C, H>>) -> NotifierState<
    C,
    H,
>
    decreases inputs.len(),
{
    if inputs.len() == 0 {
        state
    } else {
        after_all(after(state, inputs[0]), inputs.skip(1))
    }
}

/// How many handshakes are started in the course of `inputs`.
pub open spec fn handshakes_started<C, H>(
    state: NotifierState<C, H>,
    inputs: Seq<Input<C, H>>,
) -> nat
    decreases inputs.len(),
{
    if inputs.len() == 0 {
        0
    } else {
        let first: nat = if starts_handshake(state, inputs[0]) {
            1
        } else {
            0
        };
        first + handshakes_started(after(state, inputs[0]), inputs.skip(1))
    }
}

/// The state after each of `callbacks` was registered, in their order.
pub open spec fn registered_in_turn<C, H>(
    state: NotifierState<C, H>,
    callbacks: Seq<(C, Custody)>,
) -> NotifierState<C, H>
    decreases callbacks.len(),
{
    if callbacks.len() == 0 {
        state
    } else {
        registered_in_turn(
            state.register(callbacks[0].0, callbacks[0].1).0,
            callbacks.skip(1),
        )
    }
}

/// Whether the handshake in `phase` ends with the handle in the caller's
/// hands.
pub open spec fn caller_gets_handle<C, H>(phase: Phase<C, H>) -> bool {
    match phase {
        Phase::Idle => false,
        Phase::Arming { custody, .. } => custody == Custody::ReturnedToCaller,
        Phase::AwaitingClient { custody, .. } => custody == Custody::ReturnedToCaller,
        Phase::AwaitingEndpoint { custody, .. } => custody == Custody::ReturnedToCaller,
        Phase::AwaitingDelivery { kept, .. } => kept is Some,
        Phase::AwaitingSignal { kept, .. } => kept is Some,
        Phase::AwaitingEndpoints { kept } => kept is Some,
    }
}

/// What a later caller is answered once the verdict is `outcome`.
pub open spec fn standing_answer<C, H>(outcome: Result<(), NotifierError>, custody: Custody) -> Step<
    C,
    H,
> {
    match outcome {
        Ok(_) => match custody {
            Custody::RetainedByNotifier => Step::Finished(Ok(None)),
            Custody::ReturnedToCaller => Step::Finished(Err(NotifierError::AlreadyInitialized)),
        },
        Err(error) => Step::Finished(Err(error)),
    }
}

/// Last install wins: on a subsystem that is ready, after any number of
/// registrations through either entry point, the slot holds the callback of
/// the last one, no probe is armed, and the subsystem is still ready. A
/// notification then invokes that callback and nothing else.
pub proof fn lemma_last_registration_wins<C, H>(
    state: NotifierState<C, H>,
    callbacks: Seq<(C, Custody)>,
)
    requires
        state.lifecycle() == Lifecycle::Ready,
        callbacks.len() > 0,
    ensures
        registered_in_turn(state, callbacks).slot == Some(callbacks.last().0),
        registered_in_turn(state, callbacks).armed_probe() is None,
        registered_in_turn(state, callbacks).lifecycle() == Lifecycle::Ready,
    decreases callbacks.len(),
{
    let next = state.register(callbacks[0].0, callbacks[0].1).0;
    let rest = callbacks.skip(1);
    if rest.len() > 0 {
        lemma_last_registration_wins(next, rest);
        assert(rest.last() == callbacks.last());
    } else {
        assert(registered_in_turn(next, rest) == next);
        assert(callbacks.last() == callbacks[0]);
    }
}

/// A ready subsystem always takes the callback: whatever the slot held, and
/// also after the event loop came back and emptied it, a registration that
/// leaves the handle alone succeeds at once and the slot then holds its
/// callback.
pub proof fn lemma_ready_always_installs<C, H>(state: NotifierState<C, H>, callback: C)
    requires
        state.lifecycle() == Lifecycle::Ready,
    ensures
        state.register(callback, Custody::RetainedByNotifier).1 == Step::<C, H>::Finished(Ok(None)),
        state.register(callback, Custody::RetainedByNotifier).0.slot == Some(callback),
        state.loop_exited().register(callback, Custody::RetainedByNotifier).1 == Step::<
            C,
            H,
        >::Finished(Ok(None)),
        state.loop_exited().register(callback, Custody::RetainedByNotifier).0.slot == Some(
            callback,
        ),
{
}

/// A verdict is for good: whatever happens after it, it stands, and every
/// registration is answered from it at once. After a startup that went well
/// the handle cannot be had any more; after one that failed, every caller is
/// answered with that failure.
pub proof fn lemma_verdict_is_final<C, H>(
    state: NotifierState<C, H>,
    inputs: Seq<Input<C, H>>,
    callback: C,
    custody: Custody,
)
    requires
        state.verdict is Some,
    ensures
        after_all(state, inputs).verdict == state.verdict,
        after_all(state, inputs).register(callback, custody).1 == standing_answer::<C, H>(
            state.verdict->0,
            custody,
        ),
        handshakes_started(state, inputs) == 0,
    decreases inputs.len(),
{
    if inputs.len() > 0 {
        lemma_verdict_is_final(after(state, inputs[0]), inputs.skip(1), callback, custody);
    }
}

/// The handle is claimed once: as soon as a registration or a report is
/// answered with success, the subsystem is ready, and from then on every
/// request for the handle is answered with "already initialized", whatever
/// happened in between.
pub proof fn lemma_handle_claimed_once<C, H>(
    state: NotifierState<C, H>,
    first: Input<C, H>,
    inputs: Seq<Input<C, H>>,
    callback: C,
)
    requires
        match first {
            Input::Register(callback, custody) => state.register(callback, custody).1 matches Step::Finished(
                Ok(_),
            ),
            Input::Report(event) => state.advance(event).1 matches Step::Finished(Ok(_)),
            Input::LoopExit => false,
        },
    ensures
        after(state, first).lifecycle() == Lifecycle::Ready,
        after_all(after(state, first), inputs).register(callback, Custody::ReturnedToCaller).1
            == Step::<C, H>::Finished(Err(NotifierError::AlreadyInitialized)),
{
    lemma_verdict_is_final(after(state, first), inputs, callback, Custody::ReturnedToCaller);
}

/// A missed self-test is permanent: when the probe's signal does not come in
/// time, the registration fails with the sanity-check failure, and so does
/// every registration after it, whatever happened in between.
pub proof fn lemma_missed_signal_is_permanent<C, H>(
    state: NotifierState<C, H>,
    inputs: Seq<Input<C, H>>,
    callback: C,
    custody: Custody,
)
    requires
        state.lifecycle() == Lifecycle::Starting,
        state.phase is AwaitingSignal,
    ensures
        state.advance(Event::SignalTimedOut).1 == Step::<C, H>::Finished(
            Err(NotifierError::SanityCheck),
        ),
        after_all(state.advance(Event::SignalTimedOut).0, inputs).lifecycle() == Lifecycle::Failed(
            NotifierError::SanityCheck,
        ),
        after_all(state.advance(Event::SignalTimedOut).0, inputs).register(callback, custody).1
            == Step::<C, H>::Finished(Err(NotifierError::SanityCheck)),
        handshakes_started(state.advance(Event::SignalTimedOut).0, inputs) == 0,
{
    lemma_verdict_is_final(state.advance(Event::SignalTimedOut).0, inputs, callback, custody);
}

/// A subsystem that has been asked once is never uninitialized again.
pub proof fn lemma_never_uninitialized_again<C, H>(state: NotifierState<C, H>, input: Input<C, H>)
    requires
        state.lifecycle() != Lifecycle::Uninitialized,
    ensures
        after(state, input).lifecycle() != Lifecycle::Uninitialized,
        !starts_handshake(state, input),
{
}

/// One handshake at most: in any run, from any state, at most one handshake
/// is started, and none where the subsystem had been asked before.
pub proof fn lemma_one_handshake<C, H>(state: NotifierState<C, H>, inputs: Seq<Input<C, H>>)
    ensures
        handshakes_started(state, inputs) <= 1,
        state.lifecycle() != Lifecycle::Uninitialized ==> handshakes_started(state, inputs) == 0,
    decreases inputs.len(),
{
    if inputs.len() > 0 {
        let next = after(state, inputs[0]);
        lemma_one_handshake(next, inputs.skip(1));
        if state.lifecycle() != Lifecycle::Uninitialized {
            lemma_never_uninitialized_again(state, inputs[0]);
        }
    }
}

/// The first registration starts the handshake: on a subsystem that nobody
/// has used, a run starts exactly one handshake if it holds a registration,
/// and none if it holds none.
pub proof fn lemma_first_registration_starts<C, H>(inputs: Seq<Input<C, H>>)
    ensures
        handshakes_started(NotifierState::<C, H>::fresh(), inputs) == if exists|i: int|
            0 <= i < inputs.len() && #[trigger] inputs[i] is Register {
            1nat
        } else {
            0nat
        },
    decreases inputs.len(),
{
    let fresh = NotifierState::<C, H>::fresh();
    if inputs.len() > 0 {
        let rest = inputs.skip(1);
        if inputs[0] is Register {
            lemma_one_handshake(after(fresh, inputs[0]), rest);
        } else {
            assert(after(fresh, inputs[0]) == fresh);
            lemma_first_registration_starts(rest);
            if exists|i: int| 0 <= i < rest.len() && #[trigger] rest[i] is Register {
                let i = choose|i: int| 0 <= i < rest.len() && #[trigger] rest[i] is Register;
                assert(inputs[i + 1] is Register);
            }
            if exists|i: int| 0 <= i < inputs.len() && #[trigger] inputs[i] is Register {
                let i = choose|i: int| 0 <= i < inputs.len() && #[trigger] inputs[i] is Register;
                assert(rest[i - 1] is Register);
            }
        }
    }
}

/// All callers get one outcome: once the verdict stands, a caller that
/// leaves the handle to the notifier thread is answered with that verdict,
/// and so is every such caller after it.
pub proof fn lemma_same_outcome_for_all<C, H>(
    state: NotifierState<C, H>,
    inputs: Seq<Input<C, H>>,
    first: C,
    second: C,
)
    requires
        state.verdict is Some,
    ensures
        state.register(first, Custody::RetainedByNotifier).1 == after_all(state, inputs).register(
            second,
            Custody::RetainedByNotifier,
        ).1,
        state.register(first, Custody::RetainedByNotifier).1 matches Step::Finished(result)
            && (result is Ok <==> state.verdict->0 is Ok),
{
    lemma_verdict_is_final(state, inputs, second, Custody::RetainedByNotifier);
    lemma_verdict_is_final(state, Seq::<Input<C, H>>::empty(), first, Custody::RetainedByNotifier);
}

/// The handle goes to exactly one side. While the handshake runs, who is to
/// have the handle does not change; the notifier thread is sent the handle
/// exactly when the caller is not to have it; and a handshake that ends well
/// gives the caller the handle exactly when the caller is to have it.
pub proof fn lemma_handle_goes_to_one<C, H>(state: NotifierState<C, H>, event: Event<C, H>)
    requires
        state.lifecycle() == Lifecycle::Starting,
    ensures
        state.advance(event).0.lifecycle() == Lifecycle::Starting ==> caller_gets_handle(
            state.advance(event).0.phase,
        ) == caller_gets_handle(state.phase),
        state.advance(event).1 matches Step::Perform(Action::Proceed(sent)) ==> (sent is Some)
            != caller_gets_handle(state.phase),
        state.advance(event).1 matches Step::Finished(Ok(kept)) ==> (kept is Some)
            == caller_gets_handle(state.phase),
{
}

/// Whether `step` deals with the handle as `to_caller` asks: the notifier
/// thread is sent the handle exactly when the caller is not to have it, and
/// a success carries the handle exactly when the caller is to have it.
pub open spec fn respects_custody<C, H>(step: Step<C, H>, to_caller: bool) -> bool {
    &&& step matches Step::Perform(Action::Proceed(sent)) ==> (sent is Some) != to_caller
    &&& step matches Step::Finished(Ok(kept)) ==> (kept is Some) == to_caller
}

/// Whether every report in the course of `inputs` is answered as
/// `to_caller` asks.
pub open spec fn reports_respect_custody<C, H>(
    state: NotifierState<C, H>,
    inputs: Seq<Input<C, H>>,
    to_caller: bool,
) -> bool
    decreases inputs.len(),
{
    if inputs.len() == 0 {
        true
    } else {
        &&& inputs[0] matches Input::Report(event) ==> respects_custody(
            state.advance(event).1,
            to_caller,
        )
        &&& reports_respect_custody(after(state, inputs[0]), inputs.skip(1), to_caller)
    }
}

/// The choice of custody holds to the end: from a handshake that is under
/// way, whatever is reported and whoever else registers meanwhile, the handle
/// is dealt with as that handshake was asked to.
pub proof fn lemma_custody_is_honoured<C, H>(
    state: NotifierState<C, H>,
    inputs: Seq<Input<C, H>>,
    to_caller: bool,
)
    requires
        state.lifecycle() == Lifecycle::Starting ==> to_caller == caller_gets_handle(state.phase),
        state.lifecycle() != Lifecycle::Uninitialized,
    ensures
        reports_respect_custody(state, inputs, to_caller),
    decreases inputs.len(),
{
    if inputs.len() > 0 {
        let next = after(state, inputs[0]);
        lemma_never_uninitialized_again(state, inputs[0]);
        if state.lifecycle() == Lifecycle::Starting {
            match inputs[0] {
                Input::Report(event) => {
                    lemma_handle_goes_to_one(state, event);
                },
                _ => {},
            }
        }
        lemma_custody_is_honoured(next, inputs.skip(1), to_caller);
    }
}

/// The entry point decides who gets the handle: when a registration starts
/// the handshake, every report after it is answered as the registration
/// asked, so a caller that left the handle to the notifier thread is never
/// handed it, and one that asked for it gets it if the handshake ends well.
pub proof fn lemma_registration_decides_custody<C, H>(
    state: NotifierState<C, H>,
    callback: C,
    custody: Custody,
    inputs: Seq<Input<C, H>>,
)
    requires
        state.register(callback, custody).1 == Step::<C, H>::Perform(Action::ArmProbe),
    ensures
        reports_respect_custody(
            state.register(callback, custody).0,
            inputs,
            custody == Custody::ReturnedToCaller,
        ),
{
    lemma_custody_is_honoured(
        state.register(callback, custody).0,
        inputs,
        custody == Custody::ReturnedToCaller,
    );
}

/// The verdict is the first result: the report that ends the handshake
/// records what it answers, success as success and a failure as that failure.
/// Every other report leaves the verdict open.
pub proof fn lemma_verdict_is_the_first_result<C, H>(state: NotifierState<C, H>, event: Event<C, H>)
    requires
        state.lifecycle() == Lifecycle::Starting,
    ensures
        match state.advance(event).1 {
            Step::Finished(Ok(_)) => state.advance(event).0.lifecycle() == Lifecycle::Ready,
            Step::Finished(Err(error)) => state.advance(event).0.lifecycle() == Lifecycle::Failed(
                error,
            ),
            Step::Perform(_) => state.advance(event).0.lifecycle() == Lifecycle::Starting,
            Step::Busy(_) => false,
        },
{
}

/// The handle that the caller keeps while the handshake goes on, if the
/// caller is the one to keep it and the handshake has got that far.
pub open spec fn kept_handle<C, H>(phase: Phase<C, H>) -> Option<H> {
    match phase {
        Phase::AwaitingDelivery { kept, .. } => kept,
        Phase::AwaitingSignal { kept, .. } => kept,
        Phase::AwaitingEndpoints { kept } => kept,
        _ => None,
    }
}

/// One holder for the handle: when the self-test endpoint has been created,
/// the handle that the platform gave is either sent to the notifier thread,
/// which then holds it for as long as its event loop runs, or kept for the
/// caller; it is never both and never neither.
pub proof fn lemma_handle_has_one_holder<C, H>(state: NotifierState<C, H>, handle: H)
    requires
        state.lifecycle() == Lifecycle::Starting,
        state.phase is AwaitingEndpoint,
    ensures
        state.advance(Event::EndpointCreated(handle)).1 matches Step::Perform(Action::Proceed(sent))
            && ({
            let kept = kept_handle(state.advance(Event::EndpointCreated(handle)).0.phase);
            &&& (sent == Some(handle) && kept is None) || (sent is None && kept == Some(handle))
            &&& ThreadState::<H>::AwaitingProceed.next(ThreadEvent::Proceed(sent)).0
                == ThreadState::Looping(sent)
        }),
{
}

/// What is kept reaches the caller: once the notifier thread has been told,
/// the handle that is kept for the caller stays the same through the rest of
/// the handshake, and a handshake that ends well hands out exactly that.
pub proof fn lemma_kept_handle_reaches_caller<C, H>(state: NotifierState<C, H>, event: Event<C, H>)
    requires
        state.lifecycle() == Lifecycle::Starting,
        state.phase is AwaitingDelivery || state.phase is AwaitingSignal
            || state.phase is AwaitingEndpoints,
    ensures
        state.advance(event).0.lifecycle() == Lifecycle::Starting ==> kept_handle(
            state.advance(event).0.phase,
        ) == kept_handle(state.phase),
        state.advance(event).1 matches Step::Finished(Ok(handed)) ==> handed == kept_handle(
            state.phase,
        ),
{
}

/// The callback is in place before the wait: the step that asks the caller to
/// wait for the probe's signal leaves the caller's callback in the slot and
/// the sanity callback, which the slot held until then, armed as the probe.
pub proof fn lemma_installed_before_wait<C, H>(state: NotifierState<C, H>, event: Event<C, H>)
    requires
        state.advance(event).1 matches Step::Perform(Action::AwaitSignal(_)),
    ensures
        state.phase is AwaitingDelivery,
        state.advance(event).0.slot == Some(state.phase->AwaitingDelivery_callback),
        state.advance(event).0.armed_probe() == state.slot,
        state.advance(event).1 == Step::<C, H>::Perform(Action::AwaitSignal(1)),
{
}

} // verus!
