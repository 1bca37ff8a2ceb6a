use vstd::prelude::*;
use crate::sweep::{kept, sweep};

verus! {

/// Number of ticks an explosion stays on screen.
pub const EXPLOSION_TICKS: u32 = 15;

/// An explosion whose clock reads `time` is retired.
pub open spec fn expired(time: u32) -> bool {
    time >= EXPLOSION_TICKS
}

/// One tick of an explosion's clock; it stops at the largest `u32`.
pub open spec fn advanced(time: u32) -> u32 {
    if time == u32::MAX { time } else { (time + 1) as u32 }
}

/// The clock of an explosion made at zero after `k` ticks.
pub open spec fn age_after(k: nat) -> u32 {
    if k >= u32::MAX { u32::MAX } else { k as u32 }
}

/// Advances an explosion's clock by one tick and tells whether the
/// explosion is now to be retired.
pub fn advance_explosion(time: &mut u32) -> (gone: bool)
    ensures
        *final(time) == advanced(*old(time)),
        gone == expired(*final(time)),
{
    if *time < u32::MAX {
        *time = *time + 1;
    }
    *time >= EXPLOSION_TICKS
}

/// An explosion: its clock, and what the host draws for it.
pub struct Burst<X> {
    pub time: u32,
    pub look: X,
}

/// Every clock advanced by one tick.
pub open spec fn aged<X>(s: Seq<Burst<X>>) -> Seq<Burst<X>> {
    s.map_values(|b: Burst<X>| Burst { time: advanced(b.time), look: b.look })
}

/// Position by position, the explosion is to be retired.
pub open spec fn expiries<X>(s: Seq<Burst<X>>) -> Seq<bool> {
    s.map_values(|b: Burst<X>| expired(b.time))
}

/// Advances the clock of every explosion by one tick, then retires those
/// whose time is up; the others keep their order.
pub fn age_explosions<X>(bursts: &mut Vec<Burst<X>>)
    ensures
        final(bursts)@ == kept(aged(old(bursts)@), expiries(aged(old(bursts)@))),
{
    let ghost s = bursts@;
    let n = bursts.len();
    let mut marks: Vec<bool> = Vec::new();
    let mut i: usize = 0;
    while i < n
        invariant
            i <= n,
            n == s.len(),
            bursts@.len() == n,
            marks@.len() == i,
            forall|t: int| 0 <= t < i ==> #[trigger] bursts@[t] == aged(s)[t],
            forall|t: int| i <= t < n ==> #[trigger] bursts@[t] == s[t],
            forall|t: int| 0 <= t < i ==> #[trigger] marks@[t] == expired(bursts@[t].time),
        decreases n - i,
    {
        let gone = advance_explosion(&mut bursts[i].time);
        marks.push(gone);
        i = i + 1;
    }
    assert(bursts@ =~= aged(s));
    assert(marks@ =~= expiries(aged(s)));
    sweep(bursts, &marks);
}

/// An explosion made with its clock at zero is kept through its first
/// fourteen advances and retired at the fifteenth and every later one.
pub proof fn lemma_explosion_lifetime(k: nat)
    ensures
        age_after(0) == 0,
        age_after(k + 1) == advanced(age_after(k)),
        expired(age_after(k)) <==> k >= EXPLOSION_TICKS,
{
}

} // verus!
