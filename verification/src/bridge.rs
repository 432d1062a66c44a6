//! The values exchanged with the HTML control panel. The panel speaks in
//! JavaScript numbers: it hands over the shot limit as a signed integer and
//! reads the score and shot count back as signed integers.

use vstd::prelude::*;

use crate::session::{Session, ShotLimit};
use crate::shooting::{BallState, ShotState};

verus! {

/// The shot limit that the panel's raw number stands for: a negative number
/// counts as 0, which means unlimited.
pub fn panel_limit(raw: i32) -> (limit: u32)
    ensures
        limit as int == if raw < 0 { 0 } else { raw as int },
{
    if raw < 0 {
        0
    } else {
        raw as u32
    }
}

/// A counter as the panel receives it: the same bits read as a signed
/// 32-bit integer, so values past `i32::MAX` wrap to negative numbers.
pub open spec fn panel_int(n: u32) -> int {
    if n <= i32::MAX {
        n as int
    } else {
        n - 0x1_0000_0000
    }
}

fn to_panel_int(n: u32) -> (r: i32)
    ensures
        r as int == panel_int(n),
{
    let r = n as i32;
    assert(r as int == panel_int(n)) by (bit_vector)
        requires
            r == n as i32,
    ;
    r
}

/// What the game publishes to the panel at the end of each frame: score,
/// shots taken and whether the game is over.
pub fn panel_report(session: &Session) -> (report: (i32, i32, bool))
    ensures
        report.0 as int == panel_int(session.score.0),
        report.1 as int == panel_int(session.attempts.0),
        report.2 == session.stopped.0,
{
    (to_panel_int(session.score.0), to_panel_int(session.attempts.0), session.stopped.0)
}

/// Take in the panel's notes at the start of a frame: its shot limit every
/// frame, and its one-shot reset request. A reset starts a brand-new game:
/// nothing scored, no shots taken, the game not over, no charge under way and
/// the ball resting at the start line. Returns whether that happened, so
/// that the caller also clears the celebration and re-spots the ball.
pub fn sync_from_panel(
    session: &mut Session,
    shot: &mut ShotState,
    panel_limit: u32,
    reset_requested: bool,
) -> (reset: bool)
    ensures
        reset == reset_requested,
        *final(session) == (if reset_requested {
            Session::fresh(panel_limit)
        } else {
            Session { limit: ShotLimit(panel_limit), ..*old(session) }
        }),
        *final(shot) == (if reset_requested {
            ShotState { aiming: false, ball: BallState::Idle }
        } else {
            *old(shot)
        }),
{
    let reset = session.sync_in(panel_limit, reset_requested);
    if reset {
        shot.aiming = false;
        shot.ball = BallState::Idle;
    }
    reset
}

} // verus!
