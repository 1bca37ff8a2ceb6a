use vstd::prelude::*;
use crate::clock::{ShipClock, countdown, INVULNERABLE_FRAMES, SHOOT_DELAY};
use crate::movement::Movement;
use crate::plan::{Strike, TickPlan, plan_tick};

verus! {

/// Lives a player starts with, and gets back after losing the last one.
pub const START_LIVES: i32 = 3;

/// Points for each bullet that meets an asteroid.
pub const POINTS_PER_HIT: i32 = 5;

/// Score after `hits` more hits, stopping at the largest `i32`.
pub open spec fn score_after(score: i32, hits: nat) -> int {
    if score + POINTS_PER_HIT * hits > i32::MAX {
        i32::MAX as int
    } else {
        score + POINTS_PER_HIT * hits
    }
}

/// A vulnerable ship is touched.
pub open spec fn struck(s: Status, touching: bool) -> bool {
    touching && s.clock.invulnerable_frames == 0
}

/// The ship is struck while on its last life.
pub open spec fn wrecks(s: Status, touching: bool) -> bool {
    struck(s, touching) && s.lives == 1
}

/// Score once the ship's contact is settled: zero after a wreck.
pub open spec fn score_on_contact(s: Status, touching: bool) -> i32 {
    if wrecks(s, touching) { 0 } else { s.score }
}

/// Lives once the ship's contact is settled: one fewer when struck, back to
/// the starting count after a wreck.
pub open spec fn lives_on_contact(s: Status, touching: bool) -> i32 {
    if wrecks(s, touching) {
        START_LIVES
    } else if struck(s, touching) {
        (s.lives - 1) as i32
    } else {
        s.lives
    }
}

/// How a tick ended: whether the ship was wrecked, and what happens to the
/// collections.
pub struct TickOutcome {
    pub wrecked: bool,
    pub plan: TickPlan,
}

/// The state of a session that is not geometry: score, lives, the ship's
/// timers, and whether the ship is boosting (a hint for drawing).
pub struct Status {
    pub score: i32,
    pub lives: i32,
    pub clock: ShipClock,
    pub is_boosting: bool,
}

impl Status {
    /// Score never negative; lives between one and the starting count.
    pub open spec fn wf(&self) -> bool {
        &&& 0 <= self.score
        &&& 1 <= self.lives <= START_LIVES
    }

    /// The status at the start of a session.
    pub fn new() -> (s: Status)
        ensures
            s.wf(),
            s.score == 0,
            s.lives == START_LIVES,
            s.clock.invulnerable_frames == INVULNERABLE_FRAMES,
            s.clock.shoot_delay == 0,
            !s.is_boosting,
    {
        Status { score: 0, lives: START_LIVES, clock: ShipClock::new(), is_boosting: false }
    }

    /// Opens a tick: records the boost hint, decides whether a bullet is
    /// fired (gun cool, ship vulnerable, shoot intent), restarts the
    /// cooldown if so, then advances the ship's timers. Returns whether a
    /// bullet is fired.
    pub fn begin_tick(&mut self, m: &Movement) -> (fired: bool)
        ensures
            fired == (old(self).clock.shoot_delay == 0 && old(self).clock.invulnerable_frames == 0
                && m.shoot),
            final(self).is_boosting == m.boost,
            final(self).clock.shoot_delay == (if fired {
                (SHOOT_DELAY - 1) as u32
            } else {
                countdown(old(self).clock.shoot_delay)
            }),
            final(self).clock.invulnerable_frames == countdown(old(self).clock.invulnerable_frames),
            final(self).score == old(self).score,
            final(self).lives == old(self).lives,
    {
        self.is_boosting = m.boost;
        let fired = self.clock.can_fire() && !self.clock.is_invulnerable() && m.shoot;
        if fired {
            self.clock.fire();
        }
        self.clock.tick();
        fired
    }

    /// Settles the ship's contact with the asteroids in this tick. `touching`
    /// says whether any asteroid overlaps the ship's hull. A vulnerable ship
    /// that is touched loses a life and becomes invulnerable again; losing
    /// the last life resets score and lives, and the result is then `true`:
    /// the ship is wrecked, and is to explode and return to the centre.
    pub fn ship_contact(&mut self, touching: bool) -> (wrecked: bool)
        requires
            old(self).wf(),
        ensures
            final(self).wf(),
            wrecked == wrecks(*old(self), touching),
            final(self).score == score_on_contact(*old(self), touching),
            final(self).lives == lives_on_contact(*old(self), touching),
            final(self).clock.invulnerable_frames == (if struck(*old(self), touching) {
                INVULNERABLE_FRAMES
            } else {
                old(self).clock.invulnerable_frames
            }),
            final(self).clock.shoot_delay == old(self).clock.shoot_delay,
            final(self).is_boosting == old(self).is_boosting,
    {
        if !touching || self.clock.is_invulnerable() {
            return false;
        }
        self.clock.strike();
        self.lives = self.lives - 1;
        if self.lives <= 0 {
            self.score = 0;
            self.lives = START_LIVES;
            true
        } else {
            false
        }
    }

    /// Closes a tick on the facts that geometry measured: whether the ship is
    /// touched, and per asteroid whether it is large enough to split, per
    /// bullet whether it left the world, and the bullet-asteroid overlaps.
    /// The ship's contact is settled first, then five points are added for
    /// each overlap, whatever became of the asteroid. Returns whether the
    /// ship was wrecked and the plan for the collections.
    pub fn resolve(
        &mut self,
        touching: bool,
        large: &Vec<bool>,
        strays: &Vec<bool>,
        strikes: &Vec<Strike>,
    ) -> (o: TickOutcome)
        requires
            old(self).wf(),
            forall|k: int|
                0 <= k < strikes@.len() ==> (#[trigger] strikes@[k]).bullet < strays@.len()
                    && strikes@[k].asteroid < large@.len(),
        ensures
            final(self).wf(),
            o.wrecked == wrecks(*old(self), touching),
            final(self).score == score_after(
                score_on_contact(*old(self), touching),
                strikes@.len(),
            ),
            final(self).lives == lives_on_contact(*old(self), touching),
            final(self).clock.invulnerable_frames == (if struck(*old(self), touching) {
                INVULNERABLE_FRAMES
            } else {
                old(self).clock.invulnerable_frames
            }),
            final(self).clock.shoot_delay == old(self).clock.shoot_delay,
            final(self).is_boosting == old(self).is_boosting,
            o.plan.decided(large@, strays@, strikes@),
    {
        let wrecked = self.ship_contact(touching);
        let plan = plan_tick(large, strays, strikes);
        self.record_hits(strikes.len());
        TickOutcome { wrecked, plan }
    }

    /// Adds the points for `hits` bullet-asteroid collisions, five each,
    /// stopping at the largest `i32`.
    pub fn record_hits(&mut self, hits: usize)
        requires
            old(self).wf(),
        ensures
            final(self).wf(),
            final(self).score == score_after(old(self).score, hits as nat),
            final(self).lives == old(self).lives,
            final(self).clock == old(self).clock,
            final(self).is_boosting == old(self).is_boosting,
    {
        let room: i32 = i32::MAX - self.score;
        if hits as u64 > (room / POINTS_PER_HIT) as u64 {
            proof {
                let h = hits as int;
                let q = room as int / 5;
                assert((room as int) < 5 * (q + 1));
                assert(5 * (q + 1) <= 5 * h) by (nonlinear_arith)
                    requires h >= q + 1;
            }
            self.score = i32::MAX;
        } else {
            proof {
                let h = hits as int;
                let q = room as int / 5;
                assert(5 * q <= (room as int));
                assert(5 * h <= 5 * q) by (nonlinear_arith)
                    requires h <= q;
            }
            self.score = self.score + POINTS_PER_HIT * (hits as i32);
        }
    }
}

} // verus!
