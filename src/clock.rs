use vstd::prelude::*;

verus! {

/// Ticks of invulnerability that a fresh or freshly struck ship gets.
pub const INVULNERABLE_FRAMES: u32 = 90;

/// Ticks the gun needs to cool down after a shot.
pub const SHOOT_DELAY: u32 = 10;

/// One step of a countdown that stops at zero.
pub open spec fn countdown(t: u32) -> u32 {
    if t == 0 { 0 } else { (t - 1) as u32 }
}

/// The ship's two independent timers: the invulnerability window and the
/// gun's cooldown. Each only counts down, except where it is reset.
#[derive(Clone, Copy)]
pub struct ShipClock {
    pub invulnerable_frames: u32,
    pub shoot_delay: u32,
}

impl ShipClock {
    /// The clock of a ship that has just appeared: invulnerable, gun ready.
    pub fn new() -> (c: ShipClock)
        ensures
            c.invulnerable_frames == INVULNERABLE_FRAMES,
            c.shoot_delay == 0,
    {
        ShipClock { invulnerable_frames: INVULNERABLE_FRAMES, shoot_delay: 0 }
    }

    pub fn is_invulnerable(&self) -> (b: bool)
        ensures
            b == (self.invulnerable_frames > 0),
    {
        self.invulnerable_frames != 0
    }

    pub fn can_fire(&self) -> (b: bool)
        ensures
            b == (self.shoot_delay == 0),
    {
        self.shoot_delay == 0
    }

    /// Advances both timers by one tick; neither goes below zero.
    pub fn tick(&mut self)
        ensures
            final(self).invulnerable_frames == countdown(old(self).invulnerable_frames),
            final(self).shoot_delay == countdown(old(self).shoot_delay),
    {
        if self.invulnerable_frames != 0 {
            self.invulnerable_frames = self.invulnerable_frames - 1;
        }
        if self.shoot_delay != 0 {
            self.shoot_delay = self.shoot_delay - 1;
        }
    }

    /// Starts the gun's cooldown after a shot.
    pub fn fire(&mut self)
        ensures
            final(self).shoot_delay == SHOOT_DELAY,
            final(self).invulnerable_frames == old(self).invulnerable_frames,
    {
        self.shoot_delay = SHOOT_DELAY;
    }

    /// Opens a new invulnerability window after the ship was struck.
    pub fn strike(&mut self)
        ensures
            final(self).invulnerable_frames == INVULNERABLE_FRAMES,
            final(self).shoot_delay == old(self).shoot_delay,
    {
        self.invulnerable_frames = INVULNERABLE_FRAMES;
    }
}

} // verus!
