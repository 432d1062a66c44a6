//! Free-throw practice: shots numbered from 1, where every third one goes in.

use vstd::prelude::*;

verus! {

/// The number of made shots among `outcomes`.
pub open spec fn count_made(outcomes: Seq<bool>) -> nat
    decreases outcomes.len(),
{
    if outcomes.len() == 0 {
        0
    } else {
        count_made(outcomes.drop_last()) + if outcomes.last() { 1nat } else { 0nat }
    }
}

/// Whether shot number `shot` (counted from 1) goes in.
pub open spec fn sinks(shot: int) -> bool {
    shot % 3 == 0
}

/// The outcome of each practice shot and how many went in.
pub struct Practice {
    /// `outcomes[i]` is true when shot `i + 1` went in.
    pub outcomes: Vec<bool>,
    pub made: u32,
}

/// Shoot `total` free throws, numbered 1 to `total`; every third one is a
/// swish, the others rim out.
pub fn free_throws(total: u32) -> (p: Practice)
    ensures
        p.outcomes@.len() == total,
        forall|i: int| 0 <= i < total ==> p.outcomes@[i] == sinks(i + 1),
        p.made == count_made(p.outcomes@),
        p.made == total / 3,
{
    let mut outcomes: Vec<bool> = Vec::new();
    let mut made: u32 = 0;
    let mut shot: u32 = 0;
    while shot < total
        invariant
            shot <= total,
            outcomes@.len() == shot,
            forall|i: int| 0 <= i < shot ==> outcomes@[i] == sinks(i + 1),
            made == count_made(outcomes@),
            made == shot / 3,
        decreases total - shot,
    {
        shot = shot + 1;
        let swish = shot % 3 == 0;
        let ghost prev = outcomes@;
        outcomes.push(swish);
        assert(outcomes@.drop_last() =~= prev);
        if swish {
            made = made + 1;
        }
    }
    Practice { outcomes, made }
}

} // verus!
