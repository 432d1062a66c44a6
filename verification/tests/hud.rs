use rustbyve::hud::{push_decimal, score_text};
use rustbyve::session::{Attempts, Score, Session, ShotLimit, Stopped};

fn session(score: u32, attempts: u32, stopped: bool, limit: u32) -> Session {
    Session { score: Score(score), attempts: Attempts(attempts), stopped: Stopped(stopped), limit: ShotLimit(limit) }
}

#[test]
fn initial_hud_line() {
    assert_eq!(score_text(&Session::new()), "Made: 0   Shots: 0");
}

#[test]
fn hud_with_limit_shows_fraction() {
    assert_eq!(score_text(&session(3, 7, false, 10)), "Made: 3   Shots: 7/10");
}

#[test]
fn hud_without_limit_shows_count() {
    assert_eq!(score_text(&session(12, 40, false, 0)), "Made: 12   Shots: 40");
}

#[test]
fn hud_game_over_adds_verdict() {
    assert_eq!(score_text(&session(3, 10, true, 10)), "Made: 3   Shots: 10/10     GAME OVER");
}

#[test]
fn hud_follows_limit_change() {
    let mut s = session(2, 4, false, 10);
    assert_eq!(score_text(&s), "Made: 2   Shots: 4/10");
    s.sync_in(5, false);
    assert_eq!(score_text(&s), "Made: 2   Shots: 4/5");
}

#[test]
fn decimal_matches_std_formatting() {
    for n in [0u32, 1, 9, 10, 99, 100, 305, 65535, 1_000_000, u32::MAX] {
        let mut t = String::from("x");
        push_decimal(&mut t, n);
        assert_eq!(t, format!("x{}", n));
    }
}
