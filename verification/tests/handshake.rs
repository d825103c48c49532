use coremidi_hotplug_notification::error::NotifierError;
use coremidi_hotplug_notification::notifier::{
    claimed, client_device_name, endpoint_listed, virtual_device_name, Action, Custody, Event,
    Lifecycle, Notifier, Step, SANITY_TIMEOUT_SECS,
};

type Machine = Notifier<&'static str, u32>;

fn listing(names: &[Option<&str>]) -> Vec<Option<String>> {
    names.iter().map(|name| name.map(|text| text.to_string())).collect()
}

fn with_probe_endpoint() -> Vec<Option<String>> {
    listing(&[Some("IAC Driver Bus 1"), None, Some("device-detection-virtual-device")])
}

/// Drives a fresh machine up to the wait for the probe's signal.
fn awaiting_signal(custody: Custody) -> Machine {
    let mut machine = Machine::new();
    assert_eq!(machine.register("real", custody), Step::Perform(Action::ArmProbe));
    assert_eq!(machine.advance(Event::ProbeArmed("sanity")), Step::Perform(Action::SpawnNotifier));
    assert_eq!(machine.advance(Event::ClientReady(41)), Step::Perform(Action::CreateEndpoint(41)));
    let expected = match custody {
        Custody::RetainedByNotifier => Action::Proceed(Some(41)),
        Custody::ReturnedToCaller => Action::Proceed(None),
    };
    assert_eq!(machine.advance(Event::EndpointCreated(41)), Step::Perform(expected));
    assert_eq!(machine.advance(Event::ProceedDelivered), Step::Perform(Action::AwaitSignal(1)));
    machine
}

#[test]
fn names_are_the_fixed_ones() {
    assert_eq!(virtual_device_name(), "device-detection-virtual-device");
    assert_eq!(client_device_name(), "device-detection-client");
    assert_eq!(SANITY_TIMEOUT_SECS, 1);
}

#[test]
fn fresh_machine_is_uninitialized_and_dispatches_nothing() {
    let machine = Machine::new();
    assert_eq!(machine.lifecycle(), Lifecycle::Uninitialized);
    let dispatch = machine.dispatch();
    assert_eq!(dispatch.probe, None);
    assert_eq!(dispatch.callback, None);
}

#[test]
fn handshake_runs_in_order_and_thread_keeps_handle() {
    let mut machine = Machine::new();
    assert_eq!(
        machine.register("real", Custody::RetainedByNotifier),
        Step::Perform(Action::ArmProbe)
    );
    assert_eq!(machine.lifecycle(), Lifecycle::Starting);
    assert_eq!(machine.dispatch().callback, None);

    assert_eq!(machine.advance(Event::ProbeArmed("sanity")), Step::Perform(Action::SpawnNotifier));
    assert_eq!(machine.dispatch().callback, Some(&"sanity"));
    assert_eq!(machine.dispatch().probe, None);

    assert_eq!(machine.advance(Event::ClientReady(41)), Step::Perform(Action::CreateEndpoint(41)));
    assert_eq!(
        machine.advance(Event::EndpointCreated(41)),
        Step::Perform(Action::Proceed(Some(41)))
    );
    assert_eq!(machine.dispatch().callback, Some(&"sanity"));

    assert_eq!(machine.advance(Event::ProceedDelivered), Step::Perform(Action::AwaitSignal(1)));
    assert_eq!(machine.dispatch().callback, Some(&"real"));
    assert_eq!(machine.dispatch().probe, Some(&"sanity"));
    assert_eq!(machine.lifecycle(), Lifecycle::Starting);

    assert_eq!(machine.advance(Event::SignalArrived), Step::Perform(Action::ListEndpoints));
    assert_eq!(machine.dispatch().probe, None);
    assert_eq!(machine.dispatch().callback, Some(&"real"));

    assert_eq!(
        machine.advance(Event::EndpointsListed(with_probe_endpoint())),
        Step::Finished(Ok(None))
    );
    assert_eq!(machine.lifecycle(), Lifecycle::Ready);
    assert_eq!(machine.dispatch().callback, Some(&"real"));
    assert_eq!(machine.dispatch().probe, None);
}

#[test]
fn handshake_returns_handle_to_caller_on_request() {
    let mut machine = awaiting_signal(Custody::ReturnedToCaller);
    assert_eq!(machine.advance(Event::SignalArrived), Step::Perform(Action::ListEndpoints));
    assert_eq!(
        machine.advance(Event::EndpointsListed(with_probe_endpoint())),
        Step::Finished(Ok(Some(41)))
    );
    assert_eq!(machine.lifecycle(), Lifecycle::Ready);
}

#[test]
fn client_refusal_fails_with_the_status_code() {
    let mut machine = Machine::new();
    machine.register("real", Custody::RetainedByNotifier);
    machine.advance(Event::ProbeArmed("sanity"));
    assert_eq!(
        machine.advance(Event::ClientRefused(-10830)),
        Step::Finished(Err(NotifierError::Platform(-10830)))
    );
    assert_eq!(machine.lifecycle(), Lifecycle::Failed(NotifierError::Platform(-10830)));
}

#[test]
fn endpoint_refusal_fails_with_the_status_code() {
    let mut machine = Machine::new();
    machine.register("real", Custody::ReturnedToCaller);
    machine.advance(Event::ProbeArmed("sanity"));
    machine.advance(Event::ClientReady(5));
    assert_eq!(
        machine.advance(Event::EndpointRefused(-50)),
        Step::Finished(Err(NotifierError::Platform(-50)))
    );
    assert_eq!(machine.lifecycle(), Lifecycle::Failed(NotifierError::Platform(-50)));
}

#[test]
fn closed_channel_while_awaiting_client_is_a_communication_failure() {
    let mut machine = Machine::new();
    machine.register("real", Custody::RetainedByNotifier);
    machine.advance(Event::ProbeArmed("sanity"));
    assert_eq!(
        machine.advance(Event::ChannelClosed),
        Step::Finished(Err(NotifierError::Communication))
    );
    assert_eq!(machine.lifecycle(), Lifecycle::Failed(NotifierError::Communication));
}

#[test]
fn closed_channel_while_sending_proceed_is_a_communication_failure() {
    let mut machine = Machine::new();
    machine.register("real", Custody::RetainedByNotifier);
    machine.advance(Event::ProbeArmed("sanity"));
    machine.advance(Event::ClientReady(5));
    machine.advance(Event::EndpointCreated(5));
    assert_eq!(
        machine.advance(Event::ChannelClosed),
        Step::Finished(Err(NotifierError::Communication))
    );
    assert_eq!(machine.lifecycle(), Lifecycle::Failed(NotifierError::Communication));
    assert_eq!(machine.dispatch().callback, Some(&"sanity"));
}

#[test]
fn missed_signal_fails_the_sanity_check() {
    let mut machine = awaiting_signal(Custody::RetainedByNotifier);
    assert_eq!(
        machine.advance(Event::SignalTimedOut),
        Step::Finished(Err(NotifierError::SanityCheck))
    );
    assert_eq!(machine.lifecycle(), Lifecycle::Failed(NotifierError::SanityCheck));
    assert_eq!(machine.dispatch().probe, None);
}

#[test]
fn missing_probe_endpoint_fails_the_sanity_check() {
    let mut machine = awaiting_signal(Custody::ReturnedToCaller);
    machine.advance(Event::SignalArrived);
    assert_eq!(
        machine.advance(Event::EndpointsListed(listing(&[Some("IAC Driver Bus 1"), None]))),
        Step::Finished(Err(NotifierError::SanityCheck))
    );
    assert_eq!(machine.lifecycle(), Lifecycle::Failed(NotifierError::SanityCheck));
}

#[test]
fn empty_listing_fails_the_sanity_check() {
    let mut machine = awaiting_signal(Custody::RetainedByNotifier);
    machine.advance(Event::SignalArrived);
    assert_eq!(
        machine.advance(Event::EndpointsListed(Vec::new())),
        Step::Finished(Err(NotifierError::SanityCheck))
    );
}

#[test]
fn event_out_of_turn_is_a_communication_failure() {
    let mut machine = Machine::new();
    machine.register("real", Custody::RetainedByNotifier);
    assert_eq!(
        machine.advance(Event::SignalArrived),
        Step::Finished(Err(NotifierError::Communication))
    );
    assert_eq!(machine.lifecycle(), Lifecycle::Failed(NotifierError::Communication));

    let mut machine = awaiting_signal(Custody::RetainedByNotifier);
    assert_eq!(
        machine.advance(Event::ClientReady(3)),
        Step::Finished(Err(NotifierError::Communication))
    );
    assert_eq!(machine.lifecycle(), Lifecycle::Failed(NotifierError::Communication));
}

#[test]
fn refusal_out_of_turn_is_a_communication_failure() {
    let mut machine = Machine::new();
    machine.register("real", Custody::RetainedByNotifier);
    machine.advance(Event::ProbeArmed("sanity"));
    assert_eq!(
        machine.advance(Event::EndpointRefused(-1)),
        Step::Finished(Err(NotifierError::Communication))
    );
}

#[test]
fn report_without_handshake_changes_nothing() {
    let mut machine = Machine::new();
    assert_eq!(
        machine.advance(Event::SignalArrived),
        Step::Finished(Err(NotifierError::Communication))
    );
    assert_eq!(machine.lifecycle(), Lifecycle::Uninitialized);
    assert_eq!(
        machine.register("real", Custody::RetainedByNotifier),
        Step::Perform(Action::ArmProbe)
    );
}

#[test]
fn report_after_the_verdict_changes_nothing() {
    let mut machine = awaiting_signal(Custody::RetainedByNotifier);
    machine.advance(Event::SignalArrived);
    machine.advance(Event::EndpointsListed(with_probe_endpoint()));
    assert_eq!(
        machine.advance(Event::SignalTimedOut),
        Step::Finished(Err(NotifierError::Communication))
    );
    assert_eq!(machine.lifecycle(), Lifecycle::Ready);
    assert_eq!(machine.dispatch().callback, Some(&"real"));
}

#[test]
fn endpoint_listed_finds_exact_names_only() {
    let wanted = "device-detection-virtual-device";
    assert!(endpoint_listed(&with_probe_endpoint(), wanted));
    assert!(endpoint_listed(&listing(&[Some(wanted)]), wanted));
    assert!(!endpoint_listed(&listing(&[]), wanted));
    assert!(!endpoint_listed(&listing(&[None, None]), wanted));
    assert!(!endpoint_listed(&listing(&[Some("device-detection-virtual-device ")]), wanted));
    assert!(!endpoint_listed(&listing(&[Some("device-detection-virtual-devic")]), wanted));
    assert!(!endpoint_listed(&listing(&[Some("Device-Detection-Virtual-Device")]), wanted));
    assert!(endpoint_listed(&listing(&[Some("a"), Some("b"), None, Some("c")]), "c"));
    assert!(!endpoint_listed(&listing(&[Some("a"), Some("b"), None, Some("c")]), ""));
    assert!(endpoint_listed(&listing(&[Some("")]), ""));
}

#[test]
fn claimed_gives_the_handle_or_already_initialized() {
    assert_eq!(claimed(Ok(Some(4u32))), Ok(4));
    assert_eq!(claimed::<u32>(Ok(None)), Err(NotifierError::AlreadyInitialized));
    assert_eq!(
        claimed::<u32>(Err(NotifierError::SanityCheck)),
        Err(NotifierError::SanityCheck)
    );
    assert_eq!(
        claimed::<u32>(Err(NotifierError::Platform(-3))),
        Err(NotifierError::Platform(-3))
    );
}

#[test]
fn loop_exit_empties_the_slot() {
    let mut machine = awaiting_signal(Custody::RetainedByNotifier);
    machine.advance(Event::SignalArrived);
    machine.advance(Event::EndpointsListed(with_probe_endpoint()));
    assert_eq!(machine.loop_exited(), Some("real"));
    assert_eq!(machine.dispatch().callback, None);
    assert_eq!(machine.dispatch().probe, None);
    assert_eq!(machine.lifecycle(), Lifecycle::Ready);
    assert_eq!(machine.loop_exited(), None);
}
