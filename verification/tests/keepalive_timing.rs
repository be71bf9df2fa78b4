use statusfeed::keepalive::KeepAlive;
use statusfeed::HEARTBEAT_INTERVAL_MS;

#[test]
fn no_heartbeat_before_first_interval() {
    let mut k = KeepAlive::new(500, 1000);
    assert!(!k.due(1000));
    assert!(!k.due(1499));
    assert_eq!(k.emit_due(1499), 0);
}

#[test]
fn heartbeat_cadence_over_quiet_span() {
    // Reset at t0 = 1000, then 1700 ms of silence: exactly 1700 / 500 = 3
    // heartbeats are due, and zero data frames were involved.
    let mut k = KeepAlive::new(500, 1000);
    assert_eq!(k.emit_due(1000 + 1700), 3);
    // Everything due was emitted; nothing more until the next deadline.
    assert!(!k.due(2700));
    assert!(k.due(3000));
}

#[test]
fn heartbeat_due_exactly_on_deadline() {
    let mut k = KeepAlive::new(500, 0);
    assert!(k.due(500));
    assert_eq!(k.emit_due(500), 1);
    assert!(!k.due(999));
    assert!(k.due(1000));
}

#[test]
fn activity_pushes_deadline_out() {
    let mut k = KeepAlive::new(500, 0);
    k.note_activity(400);
    // The deadline moved to 900: nothing due at what used to be due time.
    assert!(!k.due(500));
    assert!(!k.due(899));
    assert_eq!(k.emit_due(899), 0);
    assert_eq!(k.emit_due(900), 1);
}

#[test]
fn cadence_never_drifts() {
    // Emitting late does not shift later deadlines: each heartbeat advances
    // the deadline by exactly one interval from where it was.
    let mut k = KeepAlive::new(500, 0);
    assert_eq!(k.emit_due(1249), 2); // deadlines 500 and 1000 both passed
    assert!(k.due(1500));
    assert_eq!(k.emit_due(1500), 1);
}

#[test]
fn reference_interval_is_half_a_second() {
    assert_eq!(HEARTBEAT_INTERVAL_MS, 500);
    let mut k = KeepAlive::new(HEARTBEAT_INTERVAL_MS, 0);
    assert_eq!(k.emit_due(2000), 4);
}
