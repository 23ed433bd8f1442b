use std::sync::mpsc::channel;
use viture_relay::presence::{
    check_ids, HotPlugEvent, PresenceController, SessionAction, VitureHotPlugHandler,
    VITURE_ID_VENDOR,
};

#[test]
fn identity_check() {
    assert_eq!(VITURE_ID_VENDOR, 0x35ca);
    for p in [0x1011u16, 0x1013, 0x1017, 0x1015, 0x101b, 0x1019, 0x101d] {
        assert!(check_ids(Some((0x35ca, p))));
    }
    assert!(!check_ids(Some((0x35ca, 0x1012))));
    assert!(!check_ids(Some((0x1234, 0x1011))));
    assert!(!check_ids(None));
}

#[test]
fn handler_forwards_only_tracked_device() {
    let (sender, receiver) = channel();
    let mut handler = VitureHotPlugHandler::new(sender, true);
    assert!(handler.debug);
    assert_eq!(handler.device_arrived(Some((0x1234, 0x5678))), None);
    assert_eq!(handler.device_left(None), None);
    assert_eq!(handler.device_arrived(Some((0x35ca, 0x1019))), Some(HotPlugEvent::Arrived));
    assert_eq!(handler.device_left(Some((0x35ca, 0x101d))), Some(HotPlugEvent::Left));
    assert_eq!(receiver.try_recv(), Ok(HotPlugEvent::Arrived));
    assert_eq!(receiver.try_recv(), Ok(HotPlugEvent::Left));
    assert!(receiver.try_recv().is_err());
}

#[test]
fn left_then_arrived_gives_one_session() {
    let mut p = PresenceController::new();
    let a = p.on_event(HotPlugEvent::Arrived);
    assert_eq!(a, SessionAction::Start);
    p.complete(a, true);
    assert!(p.active);
    let first = p.on_event(HotPlugEvent::Left);
    assert_eq!(first, SessionAction::Stop);
    p.complete(first, true);
    assert!(!p.active);
    let second = p.on_event(HotPlugEvent::Arrived);
    assert_eq!(second, SessionAction::Start);
    p.complete(second, true);
    assert!(p.active);
}

#[test]
fn overlapping_arrivals_start_once() {
    let mut p = PresenceController::new();
    let first = p.on_event(HotPlugEvent::Arrived);
    assert_eq!(first, SessionAction::Start);
    p.complete(first, true);
    let second = p.on_event(HotPlugEvent::Arrived);
    assert_eq!(second, SessionAction::Keep);
    p.complete(second, true);
    assert!(p.active);
}

#[test]
fn failed_start_is_retried_on_next_arrival() {
    let mut p = PresenceController::new();
    let a = p.on_event(HotPlugEvent::Arrived);
    p.complete(a, false);
    assert!(!p.active);
    assert_eq!(p.on_event(HotPlugEvent::Arrived), SessionAction::Start);
}

#[test]
fn departure_without_session_is_ignored() {
    let mut p = PresenceController::new();
    let a = p.on_event(HotPlugEvent::Left);
    assert_eq!(a, SessionAction::Keep);
    p.complete(a, true);
    assert!(!p.active);
}
