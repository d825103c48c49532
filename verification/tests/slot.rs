use coremidi_hotplug_notification::slot::CallbackSlot;
use coremidi_hotplug_notification::verdict::Verdict;
use coremidi_hotplug_notification::error::NotifierError;

#[test]
fn empty_slot_holds_nothing() {
    let slot: CallbackSlot<u32> = CallbackSlot::empty();
    assert_eq!(slot.current(), None);
}

#[test]
fn new_slot_holds_its_callback() {
    let slot = CallbackSlot::new(7u32);
    assert_eq!(slot.current(), Some(&7));
}

#[test]
fn install_replaces_and_hands_back_the_displaced() {
    let mut slot = CallbackSlot::new(1u32);
    assert_eq!(slot.install(2), Some(1));
    assert_eq!(slot.current(), Some(&2));
    assert_eq!(slot.install(3), Some(2));
    assert_eq!(slot.current(), Some(&3));
}

#[test]
fn install_into_empty_slot_displaces_nothing() {
    let mut slot: CallbackSlot<u32> = CallbackSlot::empty();
    assert_eq!(slot.install(9), None);
    assert_eq!(slot.current(), Some(&9));
}

#[test]
fn last_install_wins_over_many() {
    let mut slot: CallbackSlot<u32> = CallbackSlot::empty();
    for callback in 0..100u32 {
        slot.install(callback);
    }
    assert_eq!(slot.current(), Some(&99));
    assert_eq!(slot.clear(), Some(99));
    assert_eq!(slot.clear(), None);
}

#[test]
fn clear_empties_the_slot() {
    let mut slot = CallbackSlot::new("a");
    assert_eq!(slot.clear(), Some("a"));
    assert_eq!(slot.current(), None);
    assert_eq!(slot.install("b"), None);
    assert_eq!(slot.current(), Some(&"b"));
}

#[test]
fn slot_invokes_only_the_installed_closure() {
    let hits = std::rc::Rc::new(std::cell::RefCell::new(Vec::new()));
    let first = hits.clone();
    let second = hits.clone();
    let mut slot: CallbackSlot<Box<dyn Fn()>> = CallbackSlot::new(Box::new(move || {
        first.borrow_mut().push("first")
    }));
    slot.install(Box::new(move || second.borrow_mut().push("second")));
    if let Some(callback) = slot.current() {
        callback();
    }
    assert_eq!(*hits.borrow(), vec!["second"]);
}

#[test]
fn open_verdict_holds_nothing() {
    let verdict = Verdict::open();
    assert_eq!(verdict.get(), None);
}

#[test]
fn verdict_takes_the_first_result() {
    let mut verdict = Verdict::open();
    assert!(verdict.record(Err(NotifierError::SanityCheck)));
    assert_eq!(verdict.get(), Some(Err(NotifierError::SanityCheck)));
}

#[test]
fn verdict_turns_a_second_result_away() {
    let mut verdict = Verdict::open();
    assert!(verdict.record(Ok(())));
    assert!(!verdict.record(Err(NotifierError::Communication)));
    assert_eq!(verdict.get(), Some(Ok(())));
    assert!(!verdict.record(Ok(())));
    assert_eq!(verdict.get(), Some(Ok(())));
}

#[test]
fn verdict_keeps_a_failure_against_a_later_success() {
    let mut verdict = Verdict::open();
    assert!(verdict.record(Err(NotifierError::Platform(-50))));
    assert!(!verdict.record(Ok(())));
    assert_eq!(verdict.get(), Some(Err(NotifierError::Platform(-50))));
}
