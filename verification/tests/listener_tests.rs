use screenshot_core::error::PipelineError;
use screenshot_core::frame::RawFrame;
use screenshot_core::hotkey::{KeyChord, KeyEvent};
use screenshot_core::listener::{Listener, ListenerAction, ListenerEvent, ListenerState};
use screenshot_core::monitor::{MonitorGeometry, ScreenPoint};
use screenshot_core::trigger::CaptureTarget;

fn monitors() -> Vec<MonitorGeometry> {
    vec![
        MonitorGeometry { x: 0, y: 0, width: 1920, height: 1080 },
        MonitorGeometry { x: 1920, y: 0, width: 2, height: 1 },
    ]
}

fn key(code: u32, pressed: bool) -> ListenerEvent {
    ListenerEvent::Key(KeyEvent { code, pressed })
}

fn fired() -> Listener {
    let mut listener = Listener::new(KeyChord { codes: vec![125, 42, 31] });
    assert!(matches!(listener.step(key(125, true)), ListenerAction::Nothing));
    assert!(matches!(listener.step(key(42, true)), ListenerAction::Nothing));
    assert_eq!(listener.current(), ListenerState::Armed);
    assert!(matches!(listener.step(key(31, true)), ListenerAction::QueryPointer));
    assert_eq!(listener.current(), ListenerState::AwaitingPointer);
    listener
}

const SECOND: CaptureTarget = CaptureTarget { index: 1, origin: ScreenPoint { x: 1920, y: 0 } };

#[test]
fn trigger_runs_from_chord_to_hand_off() {
    let mut listener = fired();
    let pointer = Some(ScreenPoint { x: 1921, y: 1 });
    match listener.step(ListenerEvent::Pointer(pointer, monitors())) {
        ListenerAction::Capture(index) => assert_eq!(index, 1),
        other => panic!("expected a capture, got {:?}", other),
    }
    assert_eq!(listener.current(), ListenerState::AwaitingFrame(SECOND));
    let raw = RawFrame { bytes: vec![1, 2, 3, 4, 5, 6, 7, 8], width: 2, height: 1 };
    match listener.step(ListenerEvent::Frame(Some(raw))) {
        ListenerAction::Save(frame) => {
            assert_eq!((frame.width(), frame.height()), (2, 1));
            assert_eq!(frame.as_bytes(), &[3, 2, 1, 255, 7, 6, 5, 255]);
        },
        other => panic!("expected a save, got {:?}", other),
    }
    assert_eq!(listener.current(), ListenerState::AwaitingSave(SECOND));
    match listener.step(ListenerEvent::Saved(true)) {
        ListenerAction::HandOff(origin) => assert_eq!(origin, ScreenPoint { x: 1920, y: 0 }),
        other => panic!("expected a hand-off, got {:?}", other),
    }
    assert_eq!(listener.current(), ListenerState::Armed);
}

#[test]
fn chord_held_does_not_fire_again() {
    let mut listener = fired();
    listener.step(ListenerEvent::Pointer(None, monitors()));
    assert_eq!(listener.current(), ListenerState::Armed);
    assert!(matches!(listener.step(key(31, true)), ListenerAction::Nothing));
    assert!(matches!(listener.step(key(77, true)), ListenerAction::Nothing));
    assert!(matches!(listener.step(key(77, false)), ListenerAction::Nothing));
    assert_eq!(listener.current(), ListenerState::Armed);
    assert!(matches!(listener.step(key(31, false)), ListenerAction::Nothing));
    assert!(matches!(listener.step(key(31, true)), ListenerAction::QueryPointer));
}

#[test]
fn unreadable_pointer_abandons_the_trigger() {
    let mut listener = fired();
    match listener.step(ListenerEvent::Pointer(None, monitors())) {
        ListenerAction::Abandon(e) => assert_eq!(e, PipelineError::InputUnavailable),
        other => panic!("expected an abandon, got {:?}", other),
    }
    assert_eq!(listener.current(), ListenerState::Armed);
}

#[test]
fn pointer_on_no_monitor_abandons_the_trigger() {
    let mut listener = fired();
    let pointer = Some(ScreenPoint { x: -1, y: -1 });
    match listener.step(ListenerEvent::Pointer(pointer, monitors())) {
        ListenerAction::Abandon(e) => assert_eq!(e, PipelineError::NoMonitorAtPoint),
        other => panic!("expected an abandon, got {:?}", other),
    }
    assert_eq!(listener.current(), ListenerState::Armed);
}

#[test]
fn missing_frame_abandons_the_trigger() {
    let mut listener = fired();
    listener.step(ListenerEvent::Pointer(Some(ScreenPoint { x: 5, y: 5 }), monitors()));
    match listener.step(ListenerEvent::Frame(None)) {
        ListenerAction::Abandon(e) => assert_eq!(e, PipelineError::CaptureUnavailable),
        other => panic!("expected an abandon, got {:?}", other),
    }
    assert_eq!(listener.current(), ListenerState::Armed);
}

#[test]
fn unreadable_frame_abandons_the_trigger() {
    let mut listener = fired();
    listener.step(ListenerEvent::Pointer(Some(ScreenPoint { x: 5, y: 5 }), monitors()));
    let raw = RawFrame { bytes: vec![0; 7], width: 2, height: 1 };
    match listener.step(ListenerEvent::Frame(Some(raw))) {
        ListenerAction::Abandon(e) => assert_eq!(e, PipelineError::FormatError),
        other => panic!("expected an abandon, got {:?}", other),
    }
    assert_eq!(listener.current(), ListenerState::Armed);
}

#[test]
fn failed_save_never_hands_off() {
    let mut listener = fired();
    listener.step(ListenerEvent::Pointer(Some(ScreenPoint { x: 1921, y: 0 }), monitors()));
    let raw = RawFrame { bytes: vec![0; 8], width: 2, height: 1 };
    listener.step(ListenerEvent::Frame(Some(raw)));
    match listener.step(ListenerEvent::Saved(false)) {
        ListenerAction::Abandon(e) => assert_eq!(e, PipelineError::IoFailure),
        other => panic!("expected an abandon, got {:?}", other),
    }
    assert_eq!(listener.current(), ListenerState::Armed);
    assert!(matches!(listener.step(ListenerEvent::Saved(true)), ListenerAction::Nothing));
}

#[test]
fn events_out_of_turn_are_ignored() {
    let mut listener = Listener::new(KeyChord { codes: vec![1] });
    let pointer = Some(ScreenPoint { x: 5, y: 5 });
    assert!(matches!(
        listener.step(ListenerEvent::Pointer(pointer, monitors())),
        ListenerAction::Nothing
    ));
    assert!(matches!(listener.step(ListenerEvent::Frame(None)), ListenerAction::Nothing));
    assert!(matches!(listener.step(ListenerEvent::Saved(true)), ListenerAction::Nothing));
    assert_eq!(listener.current(), ListenerState::Armed);
    assert!(matches!(listener.step(key(1, true)), ListenerAction::QueryPointer));
    assert!(matches!(listener.step(ListenerEvent::Saved(true)), ListenerAction::Nothing));
    assert!(matches!(listener.step(ListenerEvent::Frame(None)), ListenerAction::Nothing));
    assert_eq!(listener.current(), ListenerState::AwaitingPointer);
}

#[test]
fn keys_during_a_trigger_are_tracked_but_start_nothing() {
    let mut listener = Listener::new(KeyChord { codes: vec![1] });
    assert!(matches!(listener.step(key(1, true)), ListenerAction::QueryPointer));
    assert!(matches!(listener.step(key(1, false)), ListenerAction::Nothing));
    assert!(matches!(listener.step(key(1, true)), ListenerAction::Nothing));
    assert_eq!(listener.current(), ListenerState::AwaitingPointer);
    listener.step(ListenerEvent::Pointer(None, monitors()));
    // the chord is still held from the press during the trigger: no rising edge
    assert!(matches!(listener.step(key(1, true)), ListenerAction::Nothing));
    assert!(matches!(listener.step(key(1, false)), ListenerAction::Nothing));
    assert!(matches!(listener.step(key(1, true)), ListenerAction::QueryPointer));
}
