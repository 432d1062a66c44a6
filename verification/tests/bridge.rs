use rustbyve::bridge::{panel_limit, panel_report};
use rustbyve::session::{Attempts, Score, Session, ShotLimit, Stopped};

#[test]
fn negative_panel_limit_is_unlimited() {
    assert_eq!(panel_limit(-5), 0);
    assert_eq!(panel_limit(i32::MIN), 0);
}

#[test]
fn panel_limit_passes_through() {
    assert_eq!(panel_limit(0), 0);
    assert_eq!(panel_limit(10), 10);
    assert_eq!(panel_limit(i32::MAX), i32::MAX as u32);
}

#[test]
fn report_carries_session() {
    let s = Session { score: Score(3), attempts: Attempts(10), stopped: Stopped(true), limit: ShotLimit(10) };
    assert_eq!(panel_report(&s), (3, 10, true));
}

#[test]
fn report_wraps_huge_counters() {
    let s = Session { score: Score(u32::MAX), attempts: Attempts(0x8000_0000), stopped: Stopped(false), limit: ShotLimit(0) };
    assert_eq!(panel_report(&s), (-1, i32::MIN, false));
}

use rustbyve::bridge::sync_from_panel;
use rustbyve::shooting::{BallState, ShotState};

#[test]
fn panel_reset_starts_brand_new_game() {
    let mut s = Session { score: Score(3), attempts: Attempts(10), stopped: Stopped(true), limit: ShotLimit(10) };
    let mut shot = ShotState { aiming: true, ball: BallState::Flying };
    assert!(sync_from_panel(&mut s, &mut shot, 5, true));
    assert_eq!(s, Session { score: Score(0), attempts: Attempts(0), stopped: Stopped(false), limit: ShotLimit(5) });
    assert_eq!(shot, ShotState { aiming: false, ball: BallState::Idle });
}

#[test]
fn panel_limit_change_mid_game_keeps_play() {
    let mut s = Session { score: Score(2), attempts: Attempts(4), stopped: Stopped(false), limit: ShotLimit(10) };
    let mut shot = ShotState { aiming: true, ball: BallState::Idle };
    assert!(!sync_from_panel(&mut s, &mut shot, 5, false));
    assert_eq!(s, Session { score: Score(2), attempts: Attempts(4), stopped: Stopped(false), limit: ShotLimit(5) });
    assert_eq!(shot, ShotState { aiming: true, ball: BallState::Idle });
}
