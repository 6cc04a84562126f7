use cambio_torrefaction::sensor::{Bridge, Event, TempData};

#[test]
fn bridge_preserves_arrival_order() {
    let mut bridge = Bridge::new();
    bridge.offer(Event::Attach);
    bridge.offer_change(20_000, 100);
    bridge.offer_change(20_500, 200);
    assert_eq!(bridge.take(), Some(Event::Attach));
    assert_eq!(
        bridge.take(),
        Some(Event::Change(TempData { temp: 20_000, time: 100 }))
    );
    assert_eq!(
        bridge.take(),
        Some(Event::Change(TempData { temp: 20_500, time: 200 }))
    );
    assert_eq!(bridge.take(), None);
}

#[test]
fn bridge_queues_while_nobody_polls() {
    let mut bridge = Bridge::new();
    for i in 0..100i64 {
        bridge.offer_change(20_000 + i, i);
    }
    for i in 0..100i64 {
        assert_eq!(
            bridge.take(),
            Some(Event::Change(TempData { temp: 20_000 + i, time: i }))
        );
    }
    assert_eq!(bridge.take(), None);
}

#[test]
fn detach_completes_the_sequence() {
    let mut bridge = Bridge::new();
    bridge.offer_change(20_000, 100);
    bridge.offer(Event::Detach);
    bridge.offer_change(21_000, 200);
    assert_eq!(
        bridge.take(),
        Some(Event::Change(TempData { temp: 20_000, time: 100 }))
    );
    assert_eq!(bridge.take(), Some(Event::Detach));
    // terminal: the change queued behind the detach is never handed out
    assert_eq!(bridge.take(), None);
    assert_eq!(bridge.take(), None);
}

#[test]
fn callbacks_after_completion_are_ignored() {
    let mut bridge = Bridge::new();
    bridge.offer(Event::Detach);
    assert_eq!(bridge.take(), Some(Event::Detach));
    bridge.offer_change(22_000, 300);
    bridge.offer(Event::Attach);
    assert_eq!(bridge.take(), None);
}

#[test]
fn empty_bridge_hands_out_nothing() {
    let mut bridge = Bridge::new();
    assert_eq!(bridge.take(), None);
}
