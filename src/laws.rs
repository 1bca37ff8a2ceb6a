//! Properties that relate several of the library's functions over a tick.
use vstd::prelude::*;
use crate::status::{
    Status, POINTS_PER_HIT, START_LIVES, lives_on_contact, score_after, score_on_contact, wrecks,
};
use crate::plan::{Strike, TickPlan, asteroid_struck, bullet_struck};
use crate::sweep::{
    kept, lemma_indices_where, lemma_kept_len, lemma_kept_positions, lemma_marked_two,
    lemma_survivors, survivors,
};

verus! {

/// Each bullet-asteroid collision is worth exactly five points, as long as
/// the score stays within `i32`; whether the asteroid split or exploded does
/// not enter the count.
pub proof fn score_accounting(score: i32, hits: nat)
    requires
        0 <= score,
        score + POINTS_PER_HIT * (hits + 1) <= i32::MAX,
    ensures
        score_after(score, hits) == score + 5 * hits,
        score_after(score, hits + 1) == score_after(score, hits) + 5,
{
}

/// Losing the last life in a tick resets the score to zero and the lives to
/// the starting three, and reports the ship as wrecked, so that it explodes
/// where it stood and returns to the centre.
pub proof fn life_loss_cycle(s: Status)
    requires
        s.wf(),
        s.lives == 1,
        s.clock.invulnerable_frames == 0,
    ensures
        wrecks(s, true),
        score_on_contact(s, true) == 0,
        lives_on_contact(s, true) == START_LIVES,
        START_LIVES == 3,
{
}

/// A destroyed asteroid of at least the minimum size is listed once among
/// the splits (each giving two halves) and not among the bursts; a smaller
/// one is listed once among the bursts (each giving one explosion) and not
/// among the splits. An asteroid that nothing struck is in neither list.
pub proof fn split_conservation(
    large: Seq<bool>,
    strays: Seq<bool>,
    strikes: Seq<Strike>,
    p: TickPlan,
    i: usize,
)
    requires
        p.decided(large, strays, strikes),
        i < large.len(),
        large.len() <= usize::MAX,
    ensures
        asteroid_struck(strikes, i as int) && large[i as int] ==> p.splits@.contains(i)
            && !p.bursts@.contains(i),
        asteroid_struck(strikes, i as int) && !large[i as int] ==> p.bursts@.contains(i)
            && !p.splits@.contains(i),
        !asteroid_struck(strikes, i as int) ==> !p.splits@.contains(i) && !p.bursts@.contains(
            i,
        ),
        forall|t: int, u: int|
            0 <= t < u < p.splits@.len() ==> #[trigger] p.splits@[t] < #[trigger] p.splits@[u],
        forall|t: int, u: int|
            0 <= t < u < p.bursts@.len() ==> #[trigger] p.bursts@[t] < #[trigger] p.bursts@[u],
{
    let n = large.len() as int;
    let fs = crate::plan::both(p.asteroid_doomed@, large, true);
    let fb = crate::plan::both(p.asteroid_doomed@, large, false);
    lemma_indices_where(fs, n);
    lemma_indices_where(fb, n);
    if p.splits@.contains(i) {
        let t = choose|t: int| 0 <= t < p.splits@.len() && p.splits@[t] == i;
        assert(fs[p.splits@[t] as int]);
        assert(fs[i as int]);
    }
    if p.bursts@.contains(i) {
        let t = choose|t: int| 0 <= t < p.bursts@.len() && p.bursts@[t] == i;
        assert(fb[p.bursts@[t] as int]);
        assert(fb[i as int]);
    }
    assert(p.asteroid_doomed@[i as int] == asteroid_struck(strikes, i as int));
    assert(fs[i as int] == (p.asteroid_doomed@[i as int] && large[i as int]));
    assert(fb[i as int] == (p.asteroid_doomed@[i as int] && !large[i as int]));
}

/// A bullet that left the world bounds is removed at the end of the tick,
/// whether or not it also struck something: its position is marked, and it
/// is not among the positions that the sweep keeps.
pub proof fn stray_bullet_removed<B>(
    large: Seq<bool>,
    strays: Seq<bool>,
    strikes: Seq<Strike>,
    p: TickPlan,
    bullets: Seq<B>,
    j: usize,
)
    requires
        p.decided(large, strays, strikes),
        bullets.len() == strays.len(),
        strays.len() <= usize::MAX,
        j < strays.len(),
        strays[j as int],
    ensures
        p.bullet_doomed@[j as int],
        !survivors(p.bullet_doomed@).contains(j),
        kept(bullets, p.bullet_doomed@) == survivors(p.bullet_doomed@).map_values(
            |i: usize| bullets[i as int],
        ),
{
    lemma_survivors(p.bullet_doomed@);
    lemma_kept_positions(bullets, p.bullet_doomed@);
}

/// Two bullets striking two distinct asteroids in one tick remove all four,
/// not only the last pair found: each position is marked, none of them is
/// among the positions that the sweeps keep, and each collection loses at
/// least two entries.
pub proof fn multi_removal<A, B>(
    large: Seq<bool>,
    strays: Seq<bool>,
    strikes: Seq<Strike>,
    p: TickPlan,
    asteroids: Seq<A>,
    bullets: Seq<B>,
    k1: int,
    k2: int,
)
    requires
        p.decided(large, strays, strikes),
        asteroids.len() == large.len(),
        bullets.len() == strays.len(),
        large.len() <= usize::MAX,
        strays.len() <= usize::MAX,
        0 <= k1 < strikes.len(),
        0 <= k2 < strikes.len(),
        strikes[k1].asteroid < large.len(),
        strikes[k2].asteroid < large.len(),
        strikes[k1].bullet < strays.len(),
        strikes[k2].bullet < strays.len(),
        strikes[k1].asteroid != strikes[k2].asteroid,
        strikes[k1].bullet != strikes[k2].bullet,
    ensures
        p.asteroid_doomed@[strikes[k1].asteroid as int],
        p.asteroid_doomed@[strikes[k2].asteroid as int],
        p.bullet_doomed@[strikes[k1].bullet as int],
        p.bullet_doomed@[strikes[k2].bullet as int],
        !survivors(p.asteroid_doomed@).contains(strikes[k1].asteroid),
        !survivors(p.asteroid_doomed@).contains(strikes[k2].asteroid),
        !survivors(p.bullet_doomed@).contains(strikes[k1].bullet),
        !survivors(p.bullet_doomed@).contains(strikes[k2].bullet),
        kept(asteroids, p.asteroid_doomed@) == survivors(p.asteroid_doomed@).map_values(
            |i: usize| asteroids[i as int],
        ),
        kept(bullets, p.bullet_doomed@) == survivors(p.bullet_doomed@).map_values(
            |i: usize| bullets[i as int],
        ),
        kept(asteroids, p.asteroid_doomed@).len() + 2 <= asteroids.len(),
        kept(bullets, p.bullet_doomed@).len() + 2 <= bullets.len(),
{
    let a1 = strikes[k1].asteroid as int;
    let a2 = strikes[k2].asteroid as int;
    let b1 = strikes[k1].bullet as int;
    let b2 = strikes[k2].bullet as int;
    assert(asteroid_struck(strikes, a1));
    assert(asteroid_struck(strikes, a2));
    assert(bullet_struck(strikes, b1));
    assert(bullet_struck(strikes, b2));
    assert(p.asteroid_doomed@[a1] && p.asteroid_doomed@[a2]);
    assert(p.bullet_doomed@[b1] && p.bullet_doomed@[b2]);
    lemma_marked_two(p.asteroid_doomed@, a1, a2);
    lemma_marked_two(p.bullet_doomed@, b1, b2);
    lemma_kept_len(asteroids, p.asteroid_doomed@);
    lemma_kept_len(bullets, p.bullet_doomed@);
    lemma_survivors(p.asteroid_doomed@);
    lemma_survivors(p.bullet_doomed@);
    lemma_kept_positions(asteroids, p.asteroid_doomed@);
    lemma_kept_positions(bullets, p.bullet_doomed@);
}

} // verus!
