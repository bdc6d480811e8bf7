use alarm_core::AlarmBase;
use alarm_core::AlarmError;
use alarm_core::Level;
use alarm_core::PlaceholderMap;
use alarm_core::SinkDecision;
use alarm_core::TriggerKind;

fn alarm(
    cycles: u32,
    repeat_cycles: u32,
    recover_cycles: u32,
    error_repeat_cycles: u32,
    invert: bool,
) -> AlarmBase<Level> {
    AlarmBase::new(
        String::from("Name"),
        String::from("ID"),
        PlaceholderMap::new(),
        cycles,
        repeat_cycles,
        PlaceholderMap::new(),
        recover_cycles,
        PlaceholderMap::new(),
        error_repeat_cycles,
        invert,
        Level::new(15),
    )
    .unwrap()
}

#[test]
fn test_trigger_action() {
    let mut base = PlaceholderMap::new();
    base.insert(String::from("Hello"), String::from("World"));
    let mut alarm = AlarmBase::new(
        String::from("Name"),
        String::from("ID"),
        base,
        5,
        0,
        PlaceholderMap::new(),
        1,
        PlaceholderMap::new(),
        0,
        false,
        Level::new(15),
    )
    .unwrap();
    for _ in 0..4 {
        let r = alarm.put_data(&20, PlaceholderMap::new()).unwrap();
        assert!(r.is_none());
    }
    let mut call = PlaceholderMap::new();
    call.insert(String::from("Foo"), String::from("Bar"));
    let trigger = alarm.put_data(&20, call).unwrap().expect("fifth bad sample must trigger");
    assert!(matches!(trigger.kind, TriggerKind::Alarm));
    let payload = &trigger.payload;
    uuid::Uuid::parse_str(payload.get("alarm_uuid").unwrap()).unwrap();
    payload.get("alarm_timestamp").unwrap();
    assert_eq!(payload.get("alarm_name").unwrap().as_str(), "Name");
    assert_eq!(payload.get("Hello").unwrap().as_str(), "World");
    assert_eq!(payload.get("Foo").unwrap().as_str(), "Bar");
    assert_eq!(payload.len(), 5);
    for _ in 0..4 {
        let r = alarm.put_data(&20, PlaceholderMap::new()).unwrap();
        assert!(r.is_none());
    }
}

#[test]
fn zero_cycles_is_rejected() {
    let r = AlarmBase::new(
        String::from("Name"),
        String::from("ID"),
        PlaceholderMap::new(),
        0,
        0,
        PlaceholderMap::new(),
        1,
        PlaceholderMap::new(),
        0,
        false,
        Level::new(15),
    );
    assert!(matches!(r, Err(AlarmError::InvalidConfig)));
}

#[test]
fn zero_recover_cycles_is_rejected() {
    let r = AlarmBase::new(
        String::from("Name"),
        String::from("ID"),
        PlaceholderMap::new(),
        1,
        0,
        PlaceholderMap::new(),
        0,
        PlaceholderMap::new(),
        0,
        false,
        Level::new(15),
    );
    assert!(matches!(r, Err(AlarmError::InvalidConfig)));
}

#[test]
fn repeat_interval_renotifies() {
    // repeat_cycles = 3: after the raise, a re-trigger fires on the verdict
    // that brings the count back to 3, the count then reading 1 again.
    let mut alarm = alarm(1, 3, 1, 0, false);
    let first = alarm.put_data(&20, PlaceholderMap::new()).unwrap();
    assert!(matches!(first, Some(ref t) if matches!(t.kind, TriggerKind::Alarm)));
    assert!(alarm.put_data(&20, PlaceholderMap::new()).unwrap().is_none());
    assert!(alarm.put_data(&20, PlaceholderMap::new()).unwrap().is_some());
    assert!(alarm.put_data(&20, PlaceholderMap::new()).unwrap().is_none());
    assert!(alarm.put_data(&20, PlaceholderMap::new()).unwrap().is_some());
}

#[test]
fn caller_supplied_alarm_name_wins() {
    let mut alarm = alarm(1, 0, 1, 0, false);
    let mut call = PlaceholderMap::new();
    call.insert(String::from("alarm_name"), String::from("Mine"));
    let trigger = alarm.put_data(&20, call).unwrap().unwrap();
    assert_eq!(trigger.payload.get("alarm_name").unwrap().as_str(), "Mine");
}

#[test]
fn good_verdicts_do_not_disturb_the_repeat_interval() {
    // repeat_cycles = 3: an interleaved good verdict neither hastens nor
    // permanently disables re-notification; the bad count stands untouched.
    let mut alarm = alarm(1, 3, 10, 0, false);
    assert!(alarm.put_data(&20, PlaceholderMap::new()).unwrap().is_some());
    assert!(alarm.put_data(&20, PlaceholderMap::new()).unwrap().is_none());
    assert!(alarm.put_data(&10, PlaceholderMap::new()).unwrap().is_none());
    assert!(alarm.put_data(&20, PlaceholderMap::new()).unwrap().is_some());
}

#[test]
fn repeat_disabled_never_renotifies() {
    let mut alarm = alarm(1, 0, 1, 0, false);
    assert!(alarm.put_data(&20, PlaceholderMap::new()).unwrap().is_some());
    for _ in 0..50 {
        assert!(alarm.put_data(&20, PlaceholderMap::new()).unwrap().is_none());
    }
}

#[test]
fn recovery_after_consecutive_good_verdicts() {
    let mut alarm = alarm(1, 0, 2, 0, false);
    let raised = alarm.put_data(&20, PlaceholderMap::new()).unwrap().unwrap();
    let episode = raised.payload.get("alarm_uuid").unwrap().clone();
    assert!(alarm.put_data(&10, PlaceholderMap::new()).unwrap().is_none());
    let recovered = alarm.put_data(&10, PlaceholderMap::new()).unwrap().unwrap();
    assert!(matches!(recovered.kind, TriggerKind::Recover));
    assert_eq!(recovered.payload.get("alarm_uuid").unwrap().as_str(), episode.as_str());
}

#[test]
fn bad_verdict_resets_recovery_progress() {
    let mut alarm = alarm(1, 0, 2, 0, false);
    assert!(alarm.put_data(&20, PlaceholderMap::new()).unwrap().is_some());
    assert!(alarm.put_data(&10, PlaceholderMap::new()).unwrap().is_none());
    assert!(alarm.put_data(&20, PlaceholderMap::new()).unwrap().is_none());
    // Progress starts over: one good verdict is again not enough.
    assert!(alarm.put_data(&10, PlaceholderMap::new()).unwrap().is_none());
    assert!(alarm.put_data(&10, PlaceholderMap::new()).unwrap().is_some());
}

#[test]
fn error_triggers_immediately_and_repeats_at_interval() {
    let mut alarm = alarm(5, 0, 1, 3, false);
    let entered = alarm.put_error(PlaceholderMap::new()).expect("entry must trigger");
    assert!(matches!(entered.kind, TriggerKind::Error));
    uuid::Uuid::parse_str(entered.payload.get("error_uuid").unwrap()).unwrap();
    entered.payload.get("error_timestamp").unwrap();
    assert_eq!(entered.payload.get("alarm_name").unwrap().as_str(), "Name");
    assert!(alarm.put_error(PlaceholderMap::new()).is_none());
    assert!(alarm.put_error(PlaceholderMap::new()).is_some());
    assert!(alarm.put_error(PlaceholderMap::new()).is_none());
    assert!(alarm.put_error(PlaceholderMap::new()).is_some());
}

#[test]
fn error_repeat_disabled_never_renotifies() {
    let mut alarm = alarm(5, 0, 1, 0, false);
    assert!(alarm.put_error(PlaceholderMap::new()).is_some());
    for _ in 0..50 {
        assert!(alarm.put_error(PlaceholderMap::new()).is_none());
    }
}

#[test]
fn error_episode_preserves_bad_progress() {
    // Two of three bad verdicts seen, then an error episode: the next bad
    // verdict completes the count exactly as if no error had happened.
    let mut alarm = alarm(3, 0, 1, 0, false);
    assert!(alarm.put_data(&20, PlaceholderMap::new()).unwrap().is_none());
    assert!(alarm.put_data(&20, PlaceholderMap::new()).unwrap().is_none());
    assert!(alarm.put_error(PlaceholderMap::new()).is_some());
    assert!(alarm.put_error(PlaceholderMap::new()).is_none());
    let resumed = alarm.put_data(&20, PlaceholderMap::new()).unwrap();
    assert!(matches!(resumed, Some(ref t) if matches!(t.kind, TriggerKind::Alarm)));
}

#[test]
fn error_keeps_same_episode_identity_across_renotifications() {
    let mut alarm = alarm(5, 0, 1, 2, false);
    let entered = alarm.put_error(PlaceholderMap::new()).unwrap();
    let first_uuid = entered.payload.get("error_uuid").unwrap().clone();
    let again = alarm.put_error(PlaceholderMap::new()).unwrap();
    assert_eq!(again.payload.get("error_uuid").unwrap().as_str(), first_uuid.as_str());
}

#[test]
fn invert_swaps_which_verdict_is_bad() {
    let mut alarm = alarm(1, 0, 1, 0, true);
    // A sample below the level is good raw, bad effective.
    let r = alarm.put_data(&10, PlaceholderMap::new()).unwrap();
    assert!(matches!(r, Some(ref t) if matches!(t.kind, TriggerKind::Alarm)));
    // A sample at the level is bad raw, good effective: recovery.
    let r = alarm.put_data(&20, PlaceholderMap::new()).unwrap();
    assert!(matches!(r, Some(ref t) if matches!(t.kind, TriggerKind::Recover)));
}

#[test]
fn flip_swaps_verdicts() {
    assert!(matches!(SinkDecision::Good.flip(), SinkDecision::Bad));
    assert!(matches!(SinkDecision::Bad.flip(), SinkDecision::Good));
}

#[test]
fn good_verdicts_alone_never_trigger() {
    let mut alarm = alarm(2, 0, 1, 0, false);
    for _ in 0..20 {
        assert!(alarm.put_data(&10, PlaceholderMap::new()).unwrap().is_none());
    }
}
