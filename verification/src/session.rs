//! The session counters shared by every part of the game: baskets made,
//! shots taken, the optional shot limit and the game-over flag.

use vstd::prelude::*;

verus! {

/// Baskets made in the current game.
#[derive(Clone, Copy, Debug, PartialEq, Eq, Structural)]
pub struct Score(pub u32);

/// Total shots taken in the current game (made or missed).
#[derive(Clone, Copy, Debug, PartialEq, Eq, Structural)]
pub struct Attempts(pub u32);

/// True once the shot limit is reached: shooting is frozen until a reset.
#[derive(Clone, Copy, Debug, PartialEq, Eq, Structural)]
pub struct Stopped(pub bool);

/// Max shots before the game stops, mirrored from the control panel. 0 = unlimited.
#[derive(Clone, Copy, Debug, PartialEq, Eq, Structural)]
pub struct ShotLimit(pub u32);

/// The whole session state of one game.
#[derive(Clone, Copy, Debug, PartialEq, Eq, Structural)]
pub struct Session {
    pub score: Score,
    pub attempts: Attempts,
    pub stopped: Stopped,
    pub limit: ShotLimit,
}

/// A limit of 0 means unlimited; otherwise the game ends once `attempts`
/// shots reach it.
pub open spec fn limit_reached(attempts: int, limit: int) -> bool {
    limit > 0 && attempts >= limit
}

impl Session {
    /// The counters of a game that has just started under `limit`.
    pub open spec fn fresh(limit: u32) -> Session {
        Session { score: Score(0), attempts: Attempts(0), stopped: Stopped(false), limit: ShotLimit(limit) }
    }

    /// The session after one more shot was taken.
    pub open spec fn after_shot(self) -> Session {
        Session {
            attempts: Attempts((self.attempts.0 + 1) as u32),
            stopped: Stopped(self.stopped.0 || limit_reached(self.attempts.0 + 1, self.limit.0 as int)),
            ..self
        }
    }

    /// The session after one more basket was made.
    pub open spec fn after_basket(self) -> Session {
        Session { score: Score((self.score.0 + 1) as u32), ..self }
    }

    /// Under an unchanged limit, the game-over flag agrees with the shot
    /// count: with a limit `L > 0` at most `L` shots were taken and the game
    /// is over exactly when `L` were; with no limit the game is never over.
    pub open spec fn consistent(self) -> bool {
        if self.limit.0 > 0 {
            &&& self.attempts.0 <= self.limit.0
            &&& (self.stopped.0 <==> self.attempts.0 == self.limit.0)
        } else {
            !self.stopped.0
        }
    }

    /// A brand-new game: nothing scored, no shots taken, no limit.
    pub fn new() -> (s: Session)
        ensures
            s == Session::fresh(0),
    {
        Session { score: Score(0), attempts: Attempts(0), stopped: Stopped(false), limit: ShotLimit(0) }
    }

    /// Count a made basket. The game-over flag does not matter: the last shot
    /// may still score after the game has stopped.
    pub fn record_basket(&mut self)
        requires
            old(self).score.0 < u32::MAX,
        ensures
            *final(self) == old(self).after_basket(),
    {
        self.score = Score(self.score.0 + 1);
    }

    /// Count a launched shot; if that reaches the limit, this is the last one
    /// and the game stops.
    pub fn record_shot(&mut self)
        requires
            old(self).attempts.0 < u32::MAX,
        ensures
            *final(self) == old(self).after_shot(),
    {
        self.attempts = Attempts(self.attempts.0 + 1);
        if self.limit.0 > 0 && self.attempts.0 >= self.limit.0 {
            self.stopped = Stopped(true);
        }
    }

    /// Wipe the session for a new game: score, shots and the game-over flag.
    /// The limit is the panel's to set and stays as it is.
    pub fn restart(&mut self)
        ensures
            *final(self) == Session::fresh(old(self).limit.0),
    {
        self.score = Score(0);
        self.attempts = Attempts(0);
        self.stopped = Stopped(false);
    }

    /// Take in what the control panel holds at the start of a frame: its shot
    /// limit, always, and its one-shot reset request. Returns whether a reset
    /// happened, so that the caller also clears the aim and re-spots the ball.
    pub fn sync_in(&mut self, panel_limit: u32, reset_requested: bool) -> (reset: bool)
        ensures
            reset == reset_requested,
            *final(self) == (if reset_requested {
                Session::fresh(panel_limit)
            } else {
                Session { limit: ShotLimit(panel_limit), ..*old(self) }
            }),
    {
        if self.limit.0 != panel_limit {
            self.limit = ShotLimit(panel_limit);
        }
        if reset_requested {
            self.restart();
        }
        reset_requested
    }
}

} // verus!
