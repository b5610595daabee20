use scroll_focus::bridge::{worker_step, BridgeLifecycle, BridgePhase, ControlMessage, TeardownMisuse};
use scroll_focus::focus::WindowSnapshot;

fn snap() -> WindowSnapshot {
    WindowSnapshot { x: 1, y: 2, width: 3, height: 4, root_width: 10, root_height: 10 }
}

#[test]
fn worker_forwards_and_continues_without_close() {
    let step = worker_step(Some(snap()), &Vec::new());
    assert_eq!(step.forward, Some(snap()));
    assert!(!step.stop);
}

#[test]
fn worker_stops_on_close() {
    let step = worker_step(None, &vec![ControlMessage::CloseConnection]);
    assert_eq!(step.forward, None);
    assert!(step.stop);
}

#[test]
fn teardown_once_then_stopped() {
    let mut life = BridgeLifecycle::started();
    assert!(life.may_deliver());
    assert_eq!(life.joined(), Err(TeardownMisuse::JoinOutOfOrder));
    assert_eq!(life.close(), Ok(()));
    assert_eq!(life.close(), Err(TeardownMisuse::CloseTwice));
    assert_eq!(life.joined(), Ok(()));
    assert_eq!(life.phase, BridgePhase::Stopped);
    assert!(!life.may_deliver());
    assert_eq!(life.joined(), Err(TeardownMisuse::JoinOutOfOrder));
}
