//! The shooting mechanic's decisions: hold to charge, aim with the cursor,
//! release to fire. The caller measures the charge, draws the preview and
//! computes the launch velocity; this module decides, frame by frame, what
//! happens to the aim, the ball and the shot count.

use vstd::prelude::*;

use crate::session::Session;

verus! {

/// The ball is either resting (shootable) or in the air.
#[derive(Clone, Copy, Debug, PartialEq, Eq, Structural)]
pub enum BallState {
    Idle,
    Flying,
}

/// What the player did this frame, as far as shooting is concerned.
#[derive(Clone, Copy, Debug, PartialEq, Eq, Structural)]
pub struct ShotInput {
    /// The re-spot key was just pressed.
    pub respot: bool,
    /// The cursor could be placed in the world.
    pub cursor_found: bool,
    /// The shoot button went down this frame.
    pub just_pressed: bool,
    /// The shoot button is held.
    pub pressed: bool,
    /// The shoot button went up this frame.
    pub just_released: bool,
}

/// Whether a charge is under way, and where the ball is.
#[derive(Clone, Copy, Debug, PartialEq, Eq, Structural)]
pub struct ShotState {
    pub aiming: bool,
    pub ball: BallState,
}

/// What the caller carries out for this frame.
#[derive(Clone, Copy, Debug, PartialEq, Eq, Structural)]
pub enum ShotAction {
    /// Re-spot the ball at the start line and drop the charge.
    Respot,
    /// The game is over: drop the charge, start nothing.
    Frozen,
    /// The cursor is nowhere: leave everything as it is.
    NoCursor,
    /// No charge under way: nothing to do.
    Idle,
    /// A charge is under way. `began`: set the charge to zero first;
    /// `charging`: add this frame's time and draw the preview;
    /// `launched`: fire the ball with the charge reached, then drop it.
    Aim { began: bool, charging: bool, launched: bool },
}

/// The decision for one frame.
pub open spec fn decide(state: ShotState, stopped: bool, input: ShotInput) -> ShotAction {
    if input.respot {
        ShotAction::Respot
    } else if stopped {
        ShotAction::Frozen
    } else if !input.cursor_found {
        ShotAction::NoCursor
    } else {
        let began = input.just_pressed && state.ball == BallState::Idle;
        if state.aiming || began {
            ShotAction::Aim { began, charging: input.pressed, launched: input.just_released }
        } else {
            ShotAction::Idle
        }
    }
}

/// Whether the action fires the ball.
pub open spec fn launches(action: ShotAction) -> bool {
    action matches ShotAction::Aim { launched: true, .. }
}

/// The aim and ball after the action.
pub open spec fn next_state(state: ShotState, action: ShotAction) -> ShotState {
    match action {
        ShotAction::Respot => ShotState { aiming: false, ball: BallState::Idle },
        ShotAction::Frozen => ShotState { aiming: false, ..state },
        ShotAction::NoCursor => state,
        ShotAction::Idle => state,
        ShotAction::Aim { launched, .. } => if launched {
            ShotState { aiming: false, ball: BallState::Flying }
        } else {
            ShotState { aiming: true, ..state }
        },
    }
}

/// The session after the action: a launch counts a shot, nothing else does.
pub open spec fn next_session(session: Session, action: ShotAction) -> Session {
    if launches(action) {
        session.after_shot()
    } else {
        session
    }
}

/// The decision for one frame, without acting on it: what the re-spot key,
/// the game-over flag, the cursor and the shoot button call for.
pub fn decide_shot(state: ShotState, stopped: bool, input: ShotInput) -> (action: ShotAction)
    ensures
        action == decide(state, stopped, input),
{
    // The re-spot key puts the ball back; it refunds no shot and ends nothing.
    if input.respot {
        return ShotAction::Respot;
    }
    // Game over: the last shot can still finish flying, but no new charge starts.
    if stopped {
        return ShotAction::Frozen;
    }
    if !input.cursor_found {
        return ShotAction::NoCursor;
    }
    let idle = match state.ball {
        BallState::Idle => true,
        BallState::Flying => false,
    };
    let began = input.just_pressed && idle;
    if state.aiming || began {
        ShotAction::Aim { began, charging: input.pressed, launched: input.just_released }
    } else {
        ShotAction::Idle
    }
}

/// Decide one frame of aiming and launching, update the aim, the ball and
/// the shot count, and return what the caller must carry out.
pub fn aim_and_launch(state: &mut ShotState, session: &mut Session, input: ShotInput) -> (action: ShotAction)
    requires
        launches(decide(*old(state), old(session).stopped.0, input)) ==> old(session).attempts.0 < u32::MAX,
    ensures
        action == decide(*old(state), old(session).stopped.0, input),
        *final(state) == next_state(*old(state), action),
        *final(session) == next_session(*old(session), action),
{
    let action = decide_shot(*state, session.stopped.0, input);
    match action {
        ShotAction::Respot => {
            state.aiming = false;
            state.ball = BallState::Idle;
        },
        ShotAction::Frozen => {
            state.aiming = false;
        },
        ShotAction::NoCursor => {},
        ShotAction::Idle => {},
        ShotAction::Aim { launched, .. } => {
            if launched {
                // Count the shot; if that reaches the limit, this is the last one.
                state.aiming = false;
                state.ball = BallState::Flying;
                session.record_shot();
            } else {
                state.aiming = true;
            }
        },
    }
    action
}

} // verus!
