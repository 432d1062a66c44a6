use rustbyve::session::{Attempts, Score, Session, ShotLimit, Stopped};

fn session(score: u32, attempts: u32, stopped: bool, limit: u32) -> Session {
    Session { score: Score(score), attempts: Attempts(attempts), stopped: Stopped(stopped), limit: ShotLimit(limit) }
}

#[test]
fn new_session_is_empty_and_unlimited() {
    assert_eq!(Session::new(), session(0, 0, false, 0));
}

#[test]
fn basket_adds_one_to_score_only() {
    let mut s = session(4, 9, false, 10);
    s.record_basket();
    assert_eq!(s, session(5, 9, false, 10));
}

#[test]
fn basket_counts_after_game_over() {
    let mut s = session(2, 10, true, 10);
    s.record_basket();
    assert_eq!(s, session(3, 10, true, 10));
}

#[test]
fn shot_below_limit_keeps_playing() {
    let mut s = session(0, 8, false, 10);
    s.record_shot();
    assert_eq!(s, session(0, 9, false, 10));
}

#[test]
fn shot_reaching_limit_stops_game() {
    let mut s = session(3, 9, false, 10);
    s.record_shot();
    assert_eq!(s, session(3, 10, true, 10));
}

#[test]
fn shot_past_lowered_limit_stops_game() {
    let mut s = session(1, 7, false, 5);
    s.record_shot();
    assert_eq!(s, session(1, 8, true, 5));
}

#[test]
fn unlimited_game_never_stops() {
    let mut s = Session::new();
    for _ in 0..1000 {
        s.record_shot();
    }
    assert_eq!(s, session(0, 1000, false, 0));
}

#[test]
fn restart_wipes_counters_keeps_limit() {
    let mut s = session(7, 10, true, 10);
    s.restart();
    assert_eq!(s, session(0, 0, false, 10));
}

#[test]
fn sync_without_reset_only_takes_limit() {
    let mut s = session(3, 7, false, 10);
    assert!(!s.sync_in(5, false));
    assert_eq!(s, session(3, 7, false, 5));
}

#[test]
fn sync_with_reset_starts_fresh_game() {
    let mut s = session(3, 10, true, 10);
    assert!(s.sync_in(3, true));
    assert_eq!(s, session(0, 0, false, 3));
}

#[test]
fn sync_keeps_game_over_when_limit_removed() {
    let mut s = session(3, 10, true, 10);
    assert!(!s.sync_in(0, false));
    assert_eq!(s, session(3, 10, true, 0));
}
