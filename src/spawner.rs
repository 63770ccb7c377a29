//! Puts new creatures on the field at jittered intervals, each one a little
//! faster than the last.

use vstd::prelude::*;
use rand::rngs::SmallRng;
use crate::clock::{Instant, ticks_since};
use crate::config::SUBPIXELS;
use crate::geometry::{GamePoint, sat_i64};
use crate::object::{Creep, GameObject, Id, Speed};

verus! {

/// rand's `SmallRng`, held opaque: nothing is known of its state.
#[verifier::external_type_specification]
#[verifier::external_body]
pub struct ExSmallRng(SmallRng);

/// Relies on rand's `SeedableRng::seed_from_u64` for `SmallRng`: a generator
/// whose output is fixed by the seed. Nothing is claimed of that output.
#[verifier::external_body]
fn seeded_rng(seed: u64) -> SmallRng {
    <SmallRng as rand::SeedableRng>::seed_from_u64(seed)
}

/// Relies on rand's `Rng::gen_range` over `0..bound`: a value in that range.
/// It panics on an empty range, which `requires` leaves out.
#[verifier::external_body]
fn draw_below(rng: &mut SmallRng, bound: u32) -> (r: u32)
    requires
        bound > 0,
    ensures
        r < bound,
{
    rand::Rng::gen_range(rng, 0..bound)
}

/// Relies on rand's `Rng::gen_ratio`: `true` with probability
/// `numerator / denominator`, so never for 0 and always for a ratio of 1.
/// It panics when the ratio is above 1 or the denominator is 0, which
/// `requires` leaves out.
#[verifier::external_body]
fn draw_ratio(rng: &mut SmallRng, numerator: u32, denominator: u32) -> (r: bool)
    requires
        0 < denominator,
        numerator <= denominator,
    ensures
        numerator == 0 ==> !r,
        numerator == denominator ==> r,
{
    rand::Rng::gen_ratio(rng, numerator, denominator)
}

/// Added to the base speed at every spawn.
pub const SPEED_STEP: Speed = 25;

/// A new creature's speed exceeds the base speed by less than this: up to,
/// and not including, one pixel per tick.
pub const SPEED_JITTER: u32 = 100;

/// Heights, in pixels, of the lower and the upper spawn lane.
pub const LOWER_LANE: u8 = 28;
pub const UPPER_LANE: u8 = 10;

/// Where a creature that walks leftward enters, in pixels.
pub const RIGHT_EDGE: i32 = 128;

/// Odds of the upper lane, and of a creature walking rightward.
pub const UPPER_LANE_ODDS: u32 = 3;
pub const RIGHTWARD_ODDS: u32 = 5;
pub const ODDS_OUT_OF: u32 = 10;

/// The interval between spawns for a rate of `creep_per_m`.
pub open spec fn spawn_rate_for(creep_per_m: u8) -> u32 {
    (6000int / creep_per_m as int) as u32
}

/// The identifier after `id`; after the largest one comes 0.
pub open spec fn next_id(id: Id) -> Id {
    if id == Id::MAX {
        0
    } else {
        (id + 1) as Id
    }
}

/// Largest jitter, exclusive, added to the time since the last spawn.
pub open spec fn max_deviation(spawn_rate_ms: u32) -> u32 {
    (spawn_rate_ms / 3) as u32
}

/// A spawn is due when the milliseconds since the last one, plus the jitter,
/// exceed the interval.
pub open spec fn spawn_due(elapsed_us: u64, jitter: u32, spawn_rate_ms: u32) -> bool {
    elapsed_us / 1000 + jitter > spawn_rate_ms
}

/// What `try_spawn` at `time` may do to spawner `before`, leaving `after`
/// and returning `r`: a spawn always comes once the interval has passed and
/// never while the interval less the largest jitter has not; a spawn moves
/// the last spawn to `time`, raises the base speed by one step and returns
/// the next creature, built from some draw of lane, direction and speed
/// jitter.
pub open spec fn spawn_outcome(before: Spawner, time: Instant, after: Spawner, r: Option<GameObject>) -> bool {
    let elapsed_ms = ticks_since(time.ticks, before.last_spawn.ticks).unwrap() / 1000;
    &&& after.wf()
    &&& after.spawn_rate_ms == before.spawn_rate_ms
    &&& after.spawn_axes == before.spawn_axes
    &&& elapsed_ms > before.spawn_rate_ms ==> r is Some
    &&& elapsed_ms + max_deviation(before.spawn_rate_ms) <= before.spawn_rate_ms + 1 ==> r is None
    &&& r is None ==> {
        &&& after.base_speed == before.base_speed
        &&& after.last_id == before.last_id
        &&& after.last_spawn == before.last_spawn
    }
    &&& r is Some ==> {
        &&& after.base_speed == sat_i64(before.base_speed + SPEED_STEP)
        &&& after.last_id == next_id(before.last_id)
        &&& after.last_spawn == time
        &&& exists|upper: bool, go_right: bool, speed_jitter: u32|
            speed_jitter < SPEED_JITTER && r == Some(after.spec_creep(upper, go_right, speed_jitter))
    }
}

pub struct Spawner {
    pub spawn_rate_ms: u32,
    pub base_speed: Speed,
    pub rng: SmallRng,
    /// Heights of the lower and the upper lane, in pixels.
    pub spawn_axes: [u8; 2],
    pub last_id: Id,
    pub last_spawn: Instant,
}

pub struct SpawnerBuilder {
    pub creep_per_m: u8,
    pub seed: u64,
    pub base_speed: Speed,
}

impl Spawner {
    pub open spec fn wf(&self) -> bool {
        max_deviation(self.spawn_rate_ms) > 0
    }

    /// The creature spawned by `self` (its base speed already raised) from
    /// the draws: the lane, the direction and the speed's jitter.
    pub open spec fn spec_creep(&self, upper: bool, go_right: bool, speed_jitter: u32) -> GameObject {
        let lane = if upper { self.spawn_axes[1] } else { self.spawn_axes[0] };
        let speed = if go_right {
            sat_i64(self.base_speed + speed_jitter)
        } else {
            sat_i64(-self.base_speed - speed_jitter)
        };
        GameObject::spec_make_creep(
            self.last_id,
            GamePoint {
                x: if go_right { 0 } else { RIGHT_EDGE * SUBPIXELS } as i64,
                y: (lane * SUBPIXELS) as i64,
            },
            Creep::Radiant,
            speed as i64,
        )
    }

    /// A spawner with no spawn yet, at time zero.
    pub open spec fn is_fresh(&self, creep_per_m: u8, base_speed: Speed) -> bool {
        &&& self.wf()
        &&& self.spawn_rate_ms == spawn_rate_for(creep_per_m)
        &&& self.base_speed == base_speed
        &&& self.spawn_axes@ == seq![LOWER_LANE, UPPER_LANE]
        &&& self.last_id == 0
        &&& self.last_spawn.ticks == 0
    }

    pub fn from_config(config: SpawnerBuilder) -> (r: Spawner)
        requires
            config.creep_per_m > 0,
        ensures
            r.is_fresh(config.creep_per_m, config.base_speed),
    {
        Self::new(config.creep_per_m, config.seed, config.base_speed)
    }

    pub fn new(creep_per_m: u8, seed: u64, base_speed: Speed) -> (r: Spawner)
        requires
            creep_per_m > 0,
        ensures
            r.is_fresh(creep_per_m, base_speed),
    {
        let spawn_rate_ms = 6000 / creep_per_m as u32;
        assert(6000int / (creep_per_m as int) >= 23) by (nonlinear_arith)
            requires
                0 < creep_per_m <= 255,
        ;
        let r = Self {
            spawn_rate_ms,
            base_speed,
            rng: seeded_rng(seed),
            spawn_axes: [LOWER_LANE, UPPER_LANE],
            last_id: 0,
            last_spawn: Instant::from_ticks(0),
        };
        assert(r.spawn_axes@ == seq![LOWER_LANE, UPPER_LANE]);
        r
    }

    fn max_spawn_deviation(&self) -> (r: u32)
        ensures
            r == max_deviation(self.spawn_rate_ms),
    {
        self.spawn_rate_ms / 3
    }

    /// Whether a spawn is due at `time` with the given jitter.
    pub fn is_due(&self, time: Instant, jitter: u32) -> (r: bool)
        requires
            ticks_since(time.ticks, self.last_spawn.ticks) is Some,
        ensures
            r == spawn_due(ticks_since(time.ticks, self.last_spawn.ticks).unwrap(), jitter, self.spawn_rate_ms),
    {
        let since_last_spawn = time.checked_duration_since(self.last_spawn).unwrap();
        since_last_spawn / 1000 + jitter as u64 > self.spawn_rate_ms as u64
    }

    fn spawn_check(&mut self, time: Instant) -> (r: bool)
        requires
            old(self).wf(),
            ticks_since(time.ticks, old(self).last_spawn.ticks) is Some,
        ensures
            final(self).wf(),
            final(self).spawn_rate_ms == old(self).spawn_rate_ms,
            final(self).base_speed == old(self).base_speed,
            final(self).spawn_axes == old(self).spawn_axes,
            final(self).last_id == old(self).last_id,
            final(self).last_spawn == old(self).last_spawn,
            exists|jitter: u32|
                jitter < max_deviation(old(self).spawn_rate_ms) && r == spawn_due(
                    ticks_since(time.ticks, old(self).last_spawn.ticks).unwrap(),
                    jitter,
                    old(self).spawn_rate_ms,
                ),
    {
        let bound = self.max_spawn_deviation();
        let jitter = draw_below(&mut self.rng, bound);
        self.is_due(time, jitter)
    }

    /// The next creature, from the given draws: in the upper lane or the
    /// lower one, walking rightward from the left edge or leftward from the
    /// right edge, as fast as the base speed plus `speed_jitter`.
    pub fn make_spawn(&mut self, upper: bool, go_right: bool, speed_jitter: u32) -> (r: GameObject)
        ensures
            final(self).last_id == next_id(old(self).last_id),
            r == final(self).spec_creep(upper, go_right, speed_jitter),
            final(self).spawn_rate_ms == old(self).spawn_rate_ms,
            final(self).base_speed == old(self).base_speed,
            final(self).spawn_axes == old(self).spawn_axes,
            final(self).last_spawn == old(self).last_spawn,
    {
        let id = self.last_id.wrapping_add(1);
        self.last_id = id;
        let y = if upper {
            self.spawn_axes[1]
        } else {
            self.spawn_axes[0]
        };
        let x = if go_right {
            0
        } else {
            RIGHT_EDGE
        };
        let speed: i64 = if go_right {
            clamp_i64(self.base_speed as i128 + speed_jitter as i128)
        } else {
            clamp_i64(-(self.base_speed as i128) - speed_jitter as i128)
        };
        let location = GamePoint::new(x, y as i32);
        GameObject::make_creep(id, location, Creep::Radiant, speed)
    }

    fn random_object(&mut self) -> (r: GameObject)
        requires
            old(self).wf(),
        ensures
            final(self).wf(),
            final(self).last_id == next_id(old(self).last_id),
            final(self).spawn_rate_ms == old(self).spawn_rate_ms,
            final(self).base_speed == old(self).base_speed,
            final(self).spawn_axes == old(self).spawn_axes,
            final(self).last_spawn == old(self).last_spawn,
            exists|upper: bool, go_right: bool, speed_jitter: u32|
                speed_jitter < SPEED_JITTER && r == final(self).spec_creep(upper, go_right, speed_jitter),
    {
        let upper = draw_ratio(&mut self.rng, UPPER_LANE_ODDS, ODDS_OUT_OF);
        let go_right = draw_ratio(&mut self.rng, RIGHTWARD_ODDS, ODDS_OUT_OF);
        let speed_jitter = draw_below(&mut self.rng, SPEED_JITTER);
        self.make_spawn(upper, go_right, speed_jitter)
    }

    /// Spawns a creature at `time` when one is due: the jitter is drawn in
    /// `[0, spawn_rate_ms / 3)`, so a spawn always comes once the interval has
    /// passed and never while the interval less that jitter has not.
    pub fn try_spawn(&mut self, time: Instant) -> (r: Option<GameObject>)
        requires
            old(self).wf(),
            ticks_since(time.ticks, old(self).last_spawn.ticks) is Some,
        ensures
            spawn_outcome(*old(self), time, *final(self), r),
    {
        if !self.spawn_check(time) {
            return None;
        }
        self.last_spawn = time;
        self.base_speed = crate::geometry::add_saturating(self.base_speed, SPEED_STEP);
        Some(self.random_object())
    }
}

fn clamp_i64(v: i128) -> (r: i64)
    ensures
        r == sat_i64(v as int),
{
    if v > i64::MAX as i128 {
        i64::MAX
    } else if v < i64::MIN as i128 {
        i64::MIN
    } else {
        v as i64
    }
}

} // verus!
