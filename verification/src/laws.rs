//! Properties of the session and shooting rules that span several calls.

use vstd::prelude::*;

use crate::hud::{decimal, digit_char, hud_line};
use crate::session::Session;
use crate::shooting::{decide, launches, next_session, next_state, BallState, ShotInput, ShotState};

verus! {

/// The state reached from `state` and `session` after one frame per input,
/// with the shot limit left as it is and no panel reset in between.
pub open spec fn play(state: ShotState, session: Session, inputs: Seq<ShotInput>) -> (ShotState, Session)
    decreases inputs.len(),
{
    if inputs.len() == 0 {
        (state, session)
    } else {
        let action = decide(state, session.stopped.0, inputs[0]);
        play(next_state(state, action), next_session(session, action), inputs.drop_first())
    }
}

/// The re-spot key re-spots the ball and drops the charge; it refunds no
/// shot and neither ends nor resumes the game.
pub proof fn lemma_respot_refunds_nothing(state: ShotState, session: Session, input: ShotInput)
    requires
        input.respot,
    ensures
        next_session(session, decide(state, session.stopped.0, input)) == session,
        next_state(state, decide(state, session.stopped.0, input)) == (ShotState {
            aiming: false,
            ball: BallState::Idle,
        }),
{
}

/// Once the game is over, no input but the re-spot key changes anything
/// but dropping the charge: no shot is fired or counted.
pub proof fn lemma_game_over_freezes_shooting(state: ShotState, session: Session, input: ShotInput)
    requires
        session.stopped.0,
        !input.respot,
    ensures
        !launches(decide(state, session.stopped.0, input)),
        next_session(session, decide(state, session.stopped.0, input)) == session,
        !next_state(state, decide(state, session.stopped.0, input)).aiming,
        next_state(state, decide(state, session.stopped.0, input)).ball == state.ball,
{
}

/// A charge only begins on a resting ball: a shot fired without a charge
/// under way was pressed and released on an idle ball in the same frame.
pub proof fn lemma_charge_starts_on_idle_ball(state: ShotState, session: Session, input: ShotInput)
    requires
        !state.aiming,
        launches(decide(state, session.stopped.0, input)),
    ensures
        state.ball == BallState::Idle,
        input.just_pressed,
        !session.stopped.0,
{
}

/// One frame of shooting keeps the session consistent with its limit; with
/// a limit, counting the shot can never overflow.
pub proof fn lemma_frame_keeps_consistent(state: ShotState, session: Session, input: ShotInput)
    requires
        session.consistent(),
    ensures
        next_session(session, decide(state, session.stopped.0, input)).consistent(),
        next_session(session, decide(state, session.stopped.0, input)).limit == session.limit,
        next_session(session, decide(state, session.stopped.0, input)).score == session.score,
        launches(decide(state, session.stopped.0, input)) && session.limit.0 > 0
            ==> session.attempts.0 < u32::MAX,
{
}

/// A made basket leaves the session consistent with its limit.
pub proof fn lemma_basket_keeps_consistent(session: Session)
    requires
        session.consistent(),
    ensures
        session.after_basket().consistent(),
{
}

/// A reset from the panel starts a consistent game, whatever the limit.
pub proof fn lemma_reset_is_consistent(limit: u32)
    ensures
        Session::fresh(limit).consistent(),
{
}

/// With no limit, a game that is not over never ends, however many shots.
pub proof fn lemma_unlimited_never_ends(session: Session)
    requires
        session.limit.0 == 0,
        !session.stopped.0,
    ensures
        !session.after_shot().stopped.0,
{
}

/// Whatever the player does, a game under a fixed shot limit `L > 0` never
/// counts more than `L` shots, and it is over exactly when `L` were taken;
/// with no limit it never ends.
pub proof fn lemma_limit_caps_shots(state: ShotState, session: Session, inputs: Seq<ShotInput>)
    requires
        session.consistent(),
    ensures
        play(state, session, inputs).1.consistent(),
        play(state, session, inputs).1.limit == session.limit,
        session.limit.0 > 0 ==> play(state, session, inputs).1.attempts.0 <= session.limit.0,
    decreases inputs.len(),
{
    if inputs.len() > 0 {
        let action = decide(state, session.stopped.0, inputs[0]);
        lemma_frame_keeps_consistent(state, session, inputs[0]);
        lemma_limit_caps_shots(next_state(state, action), next_session(session, action), inputs.drop_first());
    }
}

/// A made basket adds exactly one to the score, whatever the shot count,
/// the limit or the game-over flag, and changes nothing else.
pub proof fn lemma_basket_adds_one(session: Session)
    requires
        session.score.0 < u32::MAX,
    ensures
        session.after_basket().score.0 == session.score.0 + 1,
        session.after_basket().attempts == session.attempts,
        session.after_basket().stopped == session.stopped,
        session.after_basket().limit == session.limit,
{
}

/// A shot adds exactly one to the shot count; the game is over afterwards
/// exactly when it was over before or a limit is set and the new count is at
/// or past it, whether or not the count already was past it before.
pub proof fn lemma_shot_counts_and_stops(session: Session)
    requires
        session.attempts.0 < u32::MAX,
    ensures
        session.after_shot().attempts.0 == session.attempts.0 + 1,
        session.after_shot().stopped.0 == (session.stopped.0 || (session.limit.0 > 0
            && session.attempts.0 + 1 >= session.limit.0)),
        session.after_shot().score == session.score,
        session.after_shot().limit == session.limit,
{
}

/// With no charge under way, a frame starts or keeps a charge, or fires a
/// shot, only if the shoot button was just pressed on a resting ball and the
/// game is not over; a button merely held from before starts nothing.
pub proof fn lemma_charge_needs_fresh_click(state: ShotState, session: Session, input: ShotInput)
    requires
        !state.aiming,
    ensures
        next_state(state, decide(state, session.stopped.0, input)).aiming
            ==> input.just_pressed && state.ball == BallState::Idle && !session.stopped.0
                && input.cursor_found && !input.respot,
        !input.just_pressed ==> !launches(decide(state, session.stopped.0, input)),
        !input.just_pressed ==> !next_state(state, decide(state, session.stopped.0, input)).aiming,
        !input.just_pressed ==> next_session(session, decide(state, session.stopped.0, input))
            == session,
{
}

/// The number that a string of decimal digits stands for.
pub open spec fn numeral_value(digits: Seq<char>) -> int
    decreases digits.len(),
{
    if digits.len() == 0 {
        0
    } else {
        numeral_value(digits.drop_last()) * 10 + (digits.last() as int - '0' as int)
    }
}

/// Every character is one of `0` to `9`.
pub open spec fn all_digits(digits: Seq<char>) -> bool {
    forall|i: int| 0 <= i < digits.len() ==> '0' as int <= #[trigger] digits[i] as int <= '9' as int
}

/// The digit for `d < 10` is the character whose code is that of `0` plus `d`.
pub proof fn lemma_digit_char_code(d: nat)
    requires
        d < 10,
    ensures
        digit_char(d) as int == '0' as int + d,
{
}

/// `decimal(n)` is the standard base-10 numeral of `n`: a non-empty string
/// of digits that reads back as `n`, with no leading zero unless `n` is 0.
pub proof fn lemma_decimal_reads_back(n: nat)
    ensures
        decimal(n).len() >= 1,
        all_digits(decimal(n)),
        numeral_value(decimal(n)) == n,
        n > 0 ==> decimal(n)[0] != '0',
    decreases n,
{
    if n < 10 {
        lemma_digit_char_code(n);
        assert(decimal(n).drop_last() =~= Seq::<char>::empty());
        assert(numeral_value(Seq::<char>::empty()) == 0);
        assert(numeral_value(decimal(n)) == numeral_value(decimal(n).drop_last()) * 10 + (
        decimal(n).last() as int - '0' as int));
    } else {
        let q = n / 10;
        let r = n % 10;
        lemma_decimal_reads_back(q);
        lemma_digit_char_code(r);
        let d = decimal(n);
        assert(d == decimal(q).push(digit_char(r)));
        assert(d.drop_last() =~= decimal(q));
        assert(q * 10 + r == n) by (nonlinear_arith)
            requires
                q == n / 10,
                r == n % 10,
        ;
        assert(d[0] == decimal(q)[0]);
        assert(d.last() == digit_char(r));
        assert(numeral_value(d) == numeral_value(d.drop_last()) * 10 + (d.last() as int - '0' as int));
        assert forall|i: int| 0 <= i < d.len() implies '0' as int <= #[trigger] d[i] as int <= '9' as int by {
            if i < d.len() - 1 {
                assert(d[i] == decimal(q)[i]);
            }
        }
    }
}

/// Under a limit `L > 0` the HUD line always shows the shots as the count,
/// a slash and `L` in decimal, from the very first frame of a game (no shot
/// taken yet) on; the verdict follows once the game is over.
pub proof fn lemma_hud_shows_limit(session: Session)
    requires
        session.limit.0 > 0,
    ensures
        hud_line(session) == "Made: "@ + decimal(session.score.0 as nat) + "   Shots: "@
            + decimal(session.attempts.0 as nat) + seq!['/'] + decimal(session.limit.0 as nat)
            + (if session.stopped.0 { "     GAME OVER"@ } else { Seq::<char>::empty() }),
{
    let base = "Made: "@ + decimal(session.score.0 as nat) + "   Shots: "@
        + decimal(session.attempts.0 as nat) + seq!['/'] + decimal(session.limit.0 as nat);
    assert(base + Seq::<char>::empty() =~= base);
    assert(base =~= "Made: "@ + decimal(session.score.0 as nat) + "   Shots: "@ + (decimal(
        session.attempts.0 as nat,
    ) + seq!['/'] + decimal(session.limit.0 as nat)));
}

/// Without a limit the HUD shows the shots as the bare count.
pub proof fn lemma_hud_without_limit(session: Session)
    requires
        session.limit.0 == 0,
    ensures
        hud_line(session) == "Made: "@ + decimal(session.score.0 as nat) + "   Shots: "@
            + decimal(session.attempts.0 as nat)
            + (if session.stopped.0 { "     GAME OVER"@ } else { Seq::<char>::empty() }),
{
    let base = "Made: "@ + decimal(session.score.0 as nat) + "   Shots: "@
        + decimal(session.attempts.0 as nat);
    assert(base + Seq::<char>::empty() =~= base);
}

} // verus!
