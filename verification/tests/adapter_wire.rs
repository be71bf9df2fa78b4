use statusfeed::adapter::{decimal_string, heartbeat_marker, Adapter, StepAction};
use statusfeed::hub::Recv;
use statusfeed::sentinel::{sentinel_step, SentinelStep};

#[test]
fn decimal_rendering_exact() {
    assert_eq!(decimal_string(0), "0");
    assert_eq!(decimal_string(7), "7");
    assert_eq!(decimal_string(10), "10");
    assert_eq!(decimal_string(1234567890123), "1234567890123");
    assert_eq!(decimal_string(u64::MAX), "18446744073709551615");
}

#[test]
fn event_becomes_frame_with_id_and_payload() {
    let mut a = Adapter::new();
    match a.step(Recv::Event("hello".to_string()), 12345) {
        StepAction::Emit(f) => {
            assert_eq!(f.id, "12345");
            assert_eq!(f.data, "hello");
        }
        _ => panic!("expected a frame"),
    }
}

#[test]
fn delivery_ids_never_decrease() {
    // Even if the clock steps backwards, the identifier stays put.
    let mut a = Adapter::new();
    match a.step(Recv::Event("x".to_string()), 2000) {
        StepAction::Emit(f) => assert_eq!(f.id, "2000"),
        _ => panic!("expected a frame"),
    }
    match a.step(Recv::Event("y".to_string()), 1500) {
        StepAction::Emit(f) => assert_eq!(f.id, "2000"),
        _ => panic!("expected a frame"),
    }
    match a.step(Recv::Event("z".to_string()), 2500) {
        StepAction::Emit(f) => assert_eq!(f.id, "2500"),
        _ => panic!("expected a frame"),
    }
}

#[test]
fn lag_is_swallowed_silently() {
    let mut a = Adapter::new();
    match a.step(Recv::Lagged(42), 100) {
        StepAction::Resync(k) => assert_eq!(k, 42),
        _ => panic!("a lag must not reach the wire"),
    }
}

#[test]
fn pending_waits_and_closed_ends() {
    let mut a = Adapter::new();
    assert!(matches!(a.step(Recv::Pending, 100), StepAction::Wait));
    assert!(matches!(a.step(Recv::Closed, 100), StepAction::End));
}

#[test]
fn heartbeat_marker_is_ping() {
    assert_eq!(heartbeat_marker(), "ping");
}

#[test]
fn sentinel_drains_until_shutdown() {
    assert!(matches!(
        sentinel_step(&Recv::Event("e".to_string())),
        SentinelStep::KeepDraining
    ));
    assert!(matches!(sentinel_step(&Recv::Lagged(9)), SentinelStep::KeepDraining));
    assert!(matches!(sentinel_step(&Recv::Pending), SentinelStep::WaitForMore));
    assert!(matches!(sentinel_step(&Recv::Closed), SentinelStep::Stop));
}
