use asteroids::clock::{ShipClock, INVULNERABLE_FRAMES, SHOOT_DELAY};
use asteroids::effects::{advance_explosion, age_explosions, Burst, EXPLOSION_TICKS};
use asteroids::movement::Movement;
use asteroids::plan::{plan_tick, Strike, REFILL_LIMIT};
use asteroids::status::{Status, POINTS_PER_HIT, START_LIVES};
use asteroids::sweep::{settle, sweep};

fn idle() -> Movement {
    Movement::new()
}

fn shooting() -> Movement {
    let mut m = Movement::new();
    m.shoot = true;
    m
}

fn vulnerable_status() -> Status {
    let mut s = Status::new();
    s.clock.invulnerable_frames = 0;
    s
}

#[test]
fn movement_new_is_idle() {
    let m = Movement::new();
    assert!(!m.left && !m.right && !m.boost && !m.shoot);
    assert_eq!(m.turn(), 0);
}

#[test]
fn movement_turns_cancel() {
    let mut m = Movement::new();
    m.left = true;
    assert_eq!(m.turn(), -1);
    m.right = true;
    assert_eq!(m.turn(), 0);
    m.left = false;
    assert_eq!(m.turn(), 1);
}

#[test]
fn clock_counts_down_and_stops_at_zero() {
    let mut c = ShipClock::new();
    assert_eq!(c.invulnerable_frames, INVULNERABLE_FRAMES);
    assert!(c.is_invulnerable());
    assert!(c.can_fire());
    c.fire();
    assert_eq!(c.shoot_delay, SHOOT_DELAY);
    assert!(!c.can_fire());
    c.tick();
    assert_eq!(c.shoot_delay, 9);
    assert_eq!(c.invulnerable_frames, 89);
    for _ in 0..100 {
        c.tick();
    }
    assert_eq!(c.shoot_delay, 0);
    assert_eq!(c.invulnerable_frames, 0);
    c.strike();
    assert_eq!(c.invulnerable_frames, 90);
    assert_eq!(c.shoot_delay, 0);
}

#[test]
fn no_shot_while_invulnerable() {
    let mut s = Status::new();
    assert!(!s.begin_tick(&shooting()));
    assert_eq!(s.clock.invulnerable_frames, 89);
    assert_eq!(s.clock.shoot_delay, 0);
}

#[test]
fn shot_then_cooldown() {
    let mut s = vulnerable_status();
    assert!(s.begin_tick(&shooting()));
    assert_eq!(s.clock.shoot_delay, 9);
    let mut fired_at = Vec::new();
    for t in 1..25 {
        if s.begin_tick(&shooting()) {
            fired_at.push(t);
        }
    }
    assert_eq!(fired_at, vec![10, 20]);
}

#[test]
fn boost_hint_follows_input() {
    let mut s = Status::new();
    let mut m = Movement::new();
    m.boost = true;
    s.begin_tick(&m);
    assert!(s.is_boosting);
    s.begin_tick(&idle());
    assert!(!s.is_boosting);
}

#[test]
fn idle_ninety_ticks_clears_invulnerability() {
    let mut s = Status::new();
    for _ in 0..90 {
        assert!(!s.begin_tick(&idle()));
        let o = s.resolve(false, &vec![false; 10], &vec![], &vec![]);
        assert!(!o.wrecked);
    }
    assert_eq!(s.clock.invulnerable_frames, 0);
    assert_eq!(s.lives, 3);
    assert_eq!(s.score, 0);
}

#[test]
fn contact_ignored_while_invulnerable() {
    let mut s = Status::new();
    assert!(!s.ship_contact(true));
    assert_eq!(s.lives, 3);
    assert_eq!(s.clock.invulnerable_frames, 90);
}

#[test]
fn contact_costs_a_life() {
    let mut s = vulnerable_status();
    s.score = 40;
    assert!(!s.ship_contact(true));
    assert_eq!(s.lives, 2);
    assert_eq!(s.score, 40);
    assert_eq!(s.clock.invulnerable_frames, INVULNERABLE_FRAMES);
    assert!(!s.ship_contact(true));
    assert_eq!(s.lives, 2);
}

#[test]
fn no_contact_changes_nothing() {
    let mut s = vulnerable_status();
    assert!(!s.ship_contact(false));
    assert_eq!(s.lives, 3);
    assert_eq!(s.clock.invulnerable_frames, 0);
}

#[test]
fn last_life_lost_resets_score_and_lives() {
    let mut s = vulnerable_status();
    s.lives = 1;
    s.score = 125;
    assert!(s.ship_contact(true));
    assert_eq!(s.score, 0);
    assert_eq!(s.lives, START_LIVES);
    assert_eq!(s.clock.invulnerable_frames, 90);
}

#[test]
fn wreck_then_hits_in_same_tick() {
    let mut s = vulnerable_status();
    s.lives = 1;
    s.score = 70;
    let o = s.resolve(
        true,
        &vec![true],
        &vec![false],
        &vec![Strike { bullet: 0, asteroid: 0 }],
    );
    assert!(o.wrecked);
    assert_eq!(s.score, 5);
    assert_eq!(s.lives, 3);
}

#[test]
fn record_hits_adds_five_each() {
    let mut s = Status::new();
    s.record_hits(3);
    assert_eq!(s.score, 15);
    s.record_hits(0);
    assert_eq!(s.score, 15);
    assert_eq!(POINTS_PER_HIT, 5);
}

#[test]
fn record_hits_saturates() {
    let mut s = Status::new();
    s.score = i32::MAX - 7;
    s.record_hits(1);
    assert_eq!(s.score, i32::MAX - 2);
    s.record_hits(1);
    assert_eq!(s.score, i32::MAX);
    s.score = 10;
    s.record_hits(usize::MAX);
    assert_eq!(s.score, i32::MAX);
}

#[test]
fn score_same_for_split_and_outright_destruction() {
    let mut a = Status::new();
    let mut b = Status::new();
    let strikes = vec![Strike { bullet: 0, asteroid: 0 }];
    let pa = a.resolve(false, &vec![true], &vec![false], &strikes).plan;
    let pb = b.resolve(false, &vec![false], &vec![false], &strikes).plan;
    assert_eq!(a.score, 5);
    assert_eq!(b.score, 5);
    assert_eq!(pa.splits, vec![0]);
    assert!(pa.bursts.is_empty());
    assert_eq!(pb.bursts, vec![0]);
    assert!(pb.splits.is_empty());
}

#[test]
fn plan_splits_large_and_bursts_small() {
    let large = vec![true, false, true, false];
    let strikes = vec![
        Strike { bullet: 1, asteroid: 3 },
        Strike { bullet: 0, asteroid: 0 },
    ];
    let p = plan_tick(&large, &vec![false, false, false], &strikes);
    assert_eq!(p.asteroid_doomed, vec![true, false, false, true]);
    assert_eq!(p.bullet_doomed, vec![true, true, false]);
    assert_eq!(p.splits, vec![0]);
    assert_eq!(p.bursts, vec![3]);
    assert!(p.refill);
}

#[test]
fn stray_bullet_is_culled() {
    let mut bullets = vec!['a', 'b', 'c'];
    let p = plan_tick(&vec![false], &vec![false, true, false], &vec![]);
    assert_eq!(p.bullet_doomed, vec![false, true, false]);
    sweep(&mut bullets, &p.bullet_doomed);
    assert_eq!(bullets, vec!['a', 'c']);
}

#[test]
fn two_pairs_removed_in_one_tick() {
    let mut asteroids = vec![10, 11, 12, 13];
    let mut bullets = vec![20, 21, 22];
    let strikes = vec![
        Strike { bullet: 0, asteroid: 1 },
        Strike { bullet: 2, asteroid: 3 },
    ];
    let p = plan_tick(&vec![false; 4], &vec![false; 3], &strikes);
    sweep(&mut asteroids, &p.asteroid_doomed);
    sweep(&mut bullets, &p.bullet_doomed);
    assert_eq!(asteroids, vec![10, 12]);
    assert_eq!(bullets, vec![21]);
    assert_eq!(p.bursts, vec![1, 3]);
}

#[test]
fn asteroid_struck_twice_removed_once() {
    let mut asteroids = vec![1, 2];
    let strikes = vec![
        Strike { bullet: 0, asteroid: 1 },
        Strike { bullet: 1, asteroid: 1 },
    ];
    let mut s = Status::new();
    let p = s.resolve(false, &vec![true, true], &vec![false, false], &strikes).plan;
    assert_eq!(s.score, 10);
    assert_eq!(p.splits, vec![1]);
    assert_eq!(p.bullet_doomed, vec![true, true]);
    sweep(&mut asteroids, &p.asteroid_doomed);
    assert_eq!(asteroids, vec![1]);
}

#[test]
fn refill_while_at_most_ten() {
    assert_eq!(REFILL_LIMIT, 10);
    assert!(plan_tick(&vec![false; 0], &vec![], &vec![]).refill);
    assert!(plan_tick(&vec![false; 10], &vec![], &vec![]).refill);
    assert!(!plan_tick(&vec![false; 11], &vec![], &vec![]).refill);
}

#[test]
fn settle_sweeps_then_appends() {
    let mut v = vec![1, 2, 3, 4];
    settle(&mut v, &vec![true, false, true, false], vec![7, 8]);
    assert_eq!(v, vec![2, 4, 7, 8]);
    let mut e: Vec<u8> = vec![];
    settle(&mut e, &vec![], vec![]);
    assert!(e.is_empty());
    let mut all = vec![5, 6];
    sweep(&mut all, &vec![true, true]);
    assert!(all.is_empty());
}

#[test]
fn explosion_lasts_fifteen_ticks() {
    let mut time: u32 = 0;
    let mut retired_at = None;
    for tick in 1..=20u32 {
        if advance_explosion(&mut time) && retired_at.is_none() {
            retired_at = Some(tick);
        }
    }
    assert_eq!(retired_at, Some(EXPLOSION_TICKS));
    assert_eq!(time, 20);
}

#[test]
fn explosion_clock_saturates() {
    let mut time: u32 = u32::MAX;
    assert!(advance_explosion(&mut time));
    assert_eq!(time, u32::MAX);
    let mut young: u32 = 13;
    assert!(!advance_explosion(&mut young));
    assert!(advance_explosion(&mut young));
}

#[test]
fn explosions_age_and_retire_together() {
    let mut bursts = vec![
        Burst { time: 14, look: 'a' },
        Burst { time: 0, look: 'b' },
        Burst { time: 20, look: 'c' },
        Burst { time: 3, look: 'd' },
    ];
    age_explosions(&mut bursts);
    let left: Vec<(u32, char)> = bursts.iter().map(|b| (b.time, b.look)).collect();
    assert_eq!(left, vec![(1, 'b'), (4, 'd')]);
}

#[test]
fn explosion_in_collection_for_fifteen_ticks() {
    let mut bursts = vec![Burst { time: 0, look: () }];
    let mut present_after = 0;
    for _ in 0..30 {
        age_explosions(&mut bursts);
        if !bursts.is_empty() {
            present_after += 1;
        }
    }
    assert_eq!(present_after, 14);
    assert!(bursts.is_empty());
}
