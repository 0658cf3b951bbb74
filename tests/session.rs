use ack_replay::session::{Phase, Session, TickAction, TickInput};

fn key(down: bool) -> TickInput {
    TickInput { write_failed: false, shutdown: false, abort_combo: false, key_pressed: down }
}

fn restart(s: &mut Session) {
    s.drained();
    s.finalized();
    s.spawned();
}

#[test]
fn held_key_fires_once_and_repress_fires_again() {
    let mut s = Session::new();
    s.spawned();
    assert_eq!(s.tick(key(false)), TickAction::Continue);
    assert_eq!(s.tick(key(true)), TickAction::Drain);
    restart(&mut s);
    for _ in 0..50 {
        assert_eq!(s.tick(key(true)), TickAction::Continue);
    }
    assert_eq!(s.tick(key(false)), TickAction::Continue);
    assert_eq!(s.tick(key(true)), TickAction::Drain);
    assert_eq!(s.phase(), Phase::Draining);
}

#[test]
fn shutdown_wins_over_everything() {
    let mut s = Session::new();
    s.spawned();
    let t = TickInput { write_failed: true, shutdown: true, abort_combo: true, key_pressed: true };
    assert_eq!(s.tick(t), TickAction::Shutdown);
    assert_eq!(s.phase(), Phase::Stopped);
}

#[test]
fn abort_combo_stops_without_clip() {
    let mut s = Session::new();
    s.spawned();
    let t = TickInput { write_failed: false, shutdown: false, abort_combo: true, key_pressed: true };
    assert_eq!(s.tick(t), TickAction::Abort);
    assert_eq!(s.phase(), Phase::Stopped);
}

#[test]
fn write_failure_drains() {
    let mut s = Session::new();
    s.spawned();
    let t = TickInput { write_failed: true, shutdown: false, abort_combo: false, key_pressed: false };
    assert_eq!(s.tick(t), TickAction::Drain);
    s.drained();
    assert_eq!(s.phase(), Phase::Finalizing);
    s.finalized();
    assert_eq!(s.phase(), Phase::Spawning);
}
