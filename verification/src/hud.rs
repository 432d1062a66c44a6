//! The heads-up display line: baskets made, shots taken (out of the limit,
//! when there is one) and the game-over verdict.

use vstd::prelude::*;

use crate::session::Session;

verus! {

/// The decimal digit for `d < 10`.
pub open spec fn digit_char(d: nat) -> char {
    if d == 0 {
        '0'
    } else if d == 1 {
        '1'
    } else if d == 2 {
        '2'
    } else if d == 3 {
        '3'
    } else if d == 4 {
        '4'
    } else if d == 5 {
        '5'
    } else if d == 6 {
        '6'
    } else if d == 7 {
        '7'
    } else if d == 8 {
        '8'
    } else {
        '9'
    }
}

/// `n` written in decimal, with no leading zeros.
pub open spec fn decimal(n: nat) -> Seq<char>
    decreases n,
{
    if n < 10 {
        seq![digit_char(n)]
    } else {
        decimal(n / 10).push(digit_char(n % 10))
    }
}

/// The shot count: `attempts/limit` under a limit, just `attempts` without.
pub open spec fn shots_text(attempts: u32, limit: u32) -> Seq<char> {
    if limit > 0 {
        decimal(attempts as nat) + seq!['/'] + decimal(limit as nat)
    } else {
        decimal(attempts as nat)
    }
}

/// The whole HUD line for a session.
pub open spec fn hud_line(session: Session) -> Seq<char> {
    let base = "Made: "@ + decimal(session.score.0 as nat) + "   Shots: "@ + shots_text(
        session.attempts.0,
        session.limit.0,
    );
    if session.stopped.0 {
        base + "     GAME OVER"@
    } else {
        base
    }
}

fn digit_str(d: u32) -> (s: &'static str)
    requires
        d < 10,
    ensures
        s@ == seq![digit_char(d as nat)],
{
    if d == 0 {
        proof { reveal_strlit("0"); }
        "0"
    } else if d == 1 {
        proof { reveal_strlit("1"); }
        "1"
    } else if d == 2 {
        proof { reveal_strlit("2"); }
        "2"
    } else if d == 3 {
        proof { reveal_strlit("3"); }
        "3"
    } else if d == 4 {
        proof { reveal_strlit("4"); }
        "4"
    } else if d == 5 {
        proof { reveal_strlit("5"); }
        "5"
    } else if d == 6 {
        proof { reveal_strlit("6"); }
        "6"
    } else if d == 7 {
        proof { reveal_strlit("7"); }
        "7"
    } else if d == 8 {
        proof { reveal_strlit("8"); }
        "8"
    } else {
        proof { reveal_strlit("9"); }
        "9"
    }
}

/// Append `n` in decimal to `text`.
pub fn push_decimal(text: &mut String, n: u32)
    ensures
        final(text)@ == old(text)@ + decimal(n as nat),
    decreases n,
{
    if n >= 10 {
        push_decimal(text, n / 10);
    }
    text.append(digit_str(n % 10));
    assert(text@ =~= old(text)@ + decimal(n as nat));
}

/// The HUD line for the session: `Made: S   Shots: A` (or `A/L` under a
/// limit `L`), followed by `     GAME OVER` once the game has stopped.
pub fn score_text(session: &Session) -> (text: String)
    ensures
        text@ == hud_line(*session),
{
    let mut text = String::new();
    text.append("Made: ");
    push_decimal(&mut text, session.score.0);
    text.append("   Shots: ");
    push_decimal(&mut text, session.attempts.0);
    if session.limit.0 > 0 {
        proof { reveal_strlit("/"); }
        text.append("/");
        push_decimal(&mut text, session.limit.0);
    }
    if session.stopped.0 {
        text.append("     GAME OVER");
    }
    text
}

} // verus!
