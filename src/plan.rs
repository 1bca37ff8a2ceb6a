use vstd::prelude::*;
use crate::sweep::indices_where;

verus! {

/// While at most this many asteroids are alive, one more is spawned each tick.
pub const REFILL_LIMIT: usize = 10;

/// A bullet found overlapping an asteroid in this tick, by their positions
/// in their collections at the start of the tick.
#[derive(Clone, Copy)]
pub struct Strike {
    pub bullet: usize,
    pub asteroid: usize,
}

/// Some strike names asteroid `i`.
pub open spec fn asteroid_struck(strikes: Seq<Strike>, i: int) -> bool {
    exists|k: int| 0 <= k < strikes.len() && strikes[k].asteroid == i
}

/// Some strike names bullet `j`.
pub open spec fn bullet_struck(strikes: Seq<Strike>, j: int) -> bool {
    exists|k: int| 0 <= k < strikes.len() && strikes[k].bullet == j
}

/// Position by position: `a` is set and `b` equals `want`.
pub open spec fn both(a: Seq<bool>, b: Seq<bool>, want: bool) -> Seq<bool> {
    Seq::new(a.len(), |i: int| a[i] && b[i] == want)
}

/// What happens to the collections in one tick, decided from the facts that
/// geometry measured.
pub struct TickPlan {
    /// Asteroids destroyed this tick, by position.
    pub asteroid_doomed: Vec<bool>,
    /// Bullets that hit something or left the world, by position.
    pub bullet_doomed: Vec<bool>,
    /// Destroyed asteroids large enough to break in two, ascending.
    pub splits: Vec<usize>,
    /// Destroyed asteroids too small to split, each leaving an explosion.
    pub bursts: Vec<usize>,
    /// Whether a fresh asteroid is spawned to refill the field.
    pub refill: bool,
}

impl TickPlan {
    /// The plan decided for these facts: `large` says, per asteroid, that it
    /// is at least the minimum size to split; `strays` says, per bullet, that
    /// it left the world bounds.
    pub open spec fn decided(
        &self,
        large: Seq<bool>,
        strays: Seq<bool>,
        strikes: Seq<Strike>,
    ) -> bool {
        &&& self.asteroid_doomed@.len() == large.len()
        &&& self.bullet_doomed@.len() == strays.len()
        &&& forall|i: int|
            0 <= i < large.len() ==> #[trigger] self.asteroid_doomed@[i] == asteroid_struck(
                strikes,
                i,
            )
        &&& forall|j: int|
            0 <= j < strays.len() ==> #[trigger] self.bullet_doomed@[j] == (strays[j]
                || bullet_struck(strikes, j))
        &&& self.splits@ == indices_where(
            both(self.asteroid_doomed@, large, true),
            large.len() as int,
        )
        &&& self.bursts@ == indices_where(
            both(self.asteroid_doomed@, large, false),
            large.len() as int,
        )
        &&& self.refill == (large.len() <= REFILL_LIMIT)
    }
}

/// Decides the removals and spawns of a tick. Every asteroid named by a
/// strike is destroyed, and every bullet named by a strike or straying out
/// of bounds is removed, each once however many strikes name it. Destroyed
/// asteroids split or explode by their size. The field is refilled while it
/// holds at most `REFILL_LIMIT` asteroids.
pub fn plan_tick(large: &Vec<bool>, strays: &Vec<bool>, strikes: &Vec<Strike>) -> (p: TickPlan)
    requires
        forall|k: int|
            0 <= k < strikes@.len() ==> (#[trigger] strikes@[k]).bullet < strays@.len()
                && strikes@[k].asteroid < large@.len(),
    ensures
        p.decided(large@, strays@, strikes@),
{
    let na = large.len();
    let nb = strays.len();
    let mut ad: Vec<bool> = Vec::new();
    let mut i: usize = 0;
    while i < na
        invariant
            i <= na,
            ad@.len() == i,
            forall|t: int| 0 <= t < i ==> !(#[trigger] ad@[t]),
        decreases na - i,
    {
        ad.push(false);
        i = i + 1;
    }
    let mut bd: Vec<bool> = Vec::new();
    let mut j: usize = 0;
    while j < nb
        invariant
            j <= nb,
            nb == strays@.len(),
            bd@.len() == j,
            forall|t: int| 0 <= t < j ==> #[trigger] bd@[t] == strays@[t],
        decreases nb - j,
    {
        bd.push(strays[j]);
        j = j + 1;
    }
    let mut k: usize = 0;
    while k < strikes.len()
        invariant
            k <= strikes@.len(),
            na == large@.len(),
            nb == strays@.len(),
            ad@.len() == na,
            bd@.len() == nb,
            forall|q: int|
                0 <= q < strikes@.len() ==> (#[trigger] strikes@[q]).bullet < nb
                    && strikes@[q].asteroid < na,
            forall|t: int|
                0 <= t < na ==> #[trigger] ad@[t] == asteroid_struck(
                    strikes@.subrange(0, k as int),
                    t,
                ),
            forall|t: int|
                0 <= t < nb ==> #[trigger] bd@[t] == (strays@[t] || bullet_struck(
                    strikes@.subrange(0, k as int),
                    t,
                )),
        decreases strikes@.len() - k,
    {
        let s = strikes[k];
        ad.set(s.asteroid, true);
        bd.set(s.bullet, true);
        let ghost pre = strikes@.subrange(0, k as int);
        let ghost post = strikes@.subrange(0, k + 1);
        assert forall|t: int| 0 <= t < na implies #[trigger] ad@[t] == asteroid_struck(post, t) by {
            if asteroid_struck(pre, t) {
                let q = choose|q: int| 0 <= q < pre.len() && pre[q].asteroid == t;
                assert(post[q] == pre[q]);
            }
            if asteroid_struck(post, t) && t != s.asteroid {
                let q = choose|q: int| 0 <= q < post.len() && post[q].asteroid == t;
                assert(pre[q] == post[q]);
            }
            if t == s.asteroid {
                assert(post[k as int] == s);
            }
        }
        assert forall|t: int| 0 <= t < nb implies #[trigger] bd@[t] == (strays@[t] || bullet_struck(post, t)) by {
            if bullet_struck(pre, t) {
                let q = choose|q: int| 0 <= q < pre.len() && pre[q].bullet == t;
                assert(post[q] == pre[q]);
            }
            if bullet_struck(post, t) && t != s.bullet {
                let q = choose|q: int| 0 <= q < post.len() && post[q].bullet == t;
                assert(pre[q] == post[q]);
            }
            if t == s.bullet {
                assert(post[k as int] == s);
            }
        }
        k = k + 1;
    }
    assert(strikes@.subrange(0, strikes@.len() as int) =~= strikes@);
    let mut splits: Vec<usize> = Vec::new();
    let mut bursts: Vec<usize> = Vec::new();
    let ghost fs = both(ad@, large@, true);
    let ghost fb = both(ad@, large@, false);
    let mut i: usize = 0;
    while i < na
        invariant
            i <= na,
            na == large@.len(),
            ad@.len() == na,
            fs == both(ad@, large@, true),
            fb == both(ad@, large@, false),
            splits@ == indices_where(fs, i as int),
            bursts@ == indices_where(fb, i as int),
        decreases na - i,
    {
        if ad[i] {
            if large[i] {
                splits.push(i);
            } else {
                bursts.push(i);
            }
        }
        i = i + 1;
    }
    TickPlan {
        asteroid_doomed: ad,
        bullet_doomed: bd,
        splits,
        bursts,
        refill: na <= REFILL_LIMIT,
    }
}

} // verus!
