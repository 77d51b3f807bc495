use heartrate_monitor::broadcast::{BroadcastSlot, NextValue};

#[test]
fn new_slot_holds_placeholder() {
    let slot = BroadcastSlot::new(0u16);
    assert_eq!(slot.current(), 0);
    assert_eq!(slot.version(), 0);
    assert!(!slot.is_closed());
    assert!(slot.can_publish());
}

#[test]
fn fresh_reader_waits_for_next_publish() {
    let mut slot = BroadcastSlot::new(0u16);
    slot.publish(70);
    let mut cursor = slot.subscribe();
    assert_eq!(cursor.seen(), 1);
    assert_eq!(slot.poll(&mut cursor), NextValue::Pending);
    slot.publish(71);
    assert_eq!(slot.poll(&mut cursor), NextValue::Ready(71));
    assert_eq!(slot.poll(&mut cursor), NextValue::Pending);
}

#[test]
fn reader_sees_only_latest_of_many() {
    let mut slot = BroadcastSlot::new(0u16);
    let mut cursor = slot.subscribe();
    for v in 1..=5u16 {
        slot.publish(v * 10);
    }
    assert_eq!(slot.poll(&mut cursor), NextValue::Ready(50));
    assert_eq!(cursor.seen(), 5);
    assert_eq!(slot.poll(&mut cursor), NextValue::Pending);
}

#[test]
fn two_waiting_readers_get_same_value() {
    let mut slot = BroadcastSlot::new(0u16);
    let mut a = slot.subscribe();
    let mut b = slot.subscribe();
    assert_eq!(slot.poll(&mut a), NextValue::Pending);
    assert_eq!(slot.poll(&mut b), NextValue::Pending);
    slot.publish(64);
    assert_eq!(slot.poll(&mut a), NextValue::Ready(64));
    assert_eq!(slot.poll(&mut b), NextValue::Ready(64));
    assert_eq!(a, b);
}

#[test]
fn closed_slot_releases_waiting_readers() {
    let mut slot = BroadcastSlot::new(0u16);
    let mut a = slot.subscribe();
    let mut b = slot.subscribe();
    slot.publish(90);
    slot.close();
    assert!(slot.is_closed());
    assert_eq!(slot.poll(&mut a), NextValue::Ready(90));
    assert_eq!(slot.poll(&mut a), NextValue::SourceClosed);
    assert_eq!(slot.poll(&mut b), NextValue::Ready(90));
    assert_eq!(slot.poll(&mut b), NextValue::SourceClosed);
}
