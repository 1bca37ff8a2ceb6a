use vstd::prelude::*;

verus! {

/// The player's intents for one tick.
#[derive(Clone, Copy)]
pub struct Movement {
    pub left: bool,
    pub right: bool,
    pub boost: bool,
    pub shoot: bool,
}

/// Net number of turn steps that the intents ask for: right turns one step
/// clockwise, left one step back; both together cancel.
pub open spec fn turn_steps(m: Movement) -> int {
    (if m.right { 1int } else { 0int }) - (if m.left { 1int } else { 0int })
}

impl Movement {
    /// A snapshot with no intent set.
    pub fn new() -> (m: Movement)
        ensures
            !m.left,
            !m.right,
            !m.boost,
            !m.shoot,
    {
        Movement { left: false, right: false, boost: false, shoot: false }
    }

    /// The heading change of this tick, in turn steps (-1, 0 or 1).
    pub fn turn(&self) -> (t: i8)
        ensures
            t as int == turn_steps(*self),
    {
        let mut t: i8 = 0;
        if self.left {
            t = t - 1;
        }
        if self.right {
            t = t + 1;
        }
        t
    }
}

} // verus!
