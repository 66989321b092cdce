//! Falling astroids: how they are created, how they move and spin, and when
//! they leave the playfield.

use crate::random::RandomSource;
use crate::timer::SpawnTimer;
use crate::transform::{angle_turned, distance_covered, signed_position, Transform, UNIT};
use vstd::prelude::*;

verus! {

/// Time between two waves of astroids, in microseconds.
pub const ASTROID_SPAWN_TIME: u32 = 1_200_000;

/// Height at which astroids appear, above the visible top edge.
pub const ASTROID_SPAWN_Y: i64 = 140_000_000;

/// Height below which an astroid is removed.
pub const ASTROID_FLOOR: i64 = -120_000_000;

/// Astroids appear with `x` between minus and plus this many whole units.
pub const ASTROID_MAX_X: u32 = 120;

/// Smallest size of an astroid, in whole units.
pub const ASTROID_MIN_SIZE: u32 = 25;

/// Largest size of an astroid, in whole units.
pub const ASTROID_MAX_SIZE: u32 = 60;

/// Two astroids of one wave whose `x` differ by less than this are too close.
pub const MIN_GAP: i64 = 50_000_000;

/// Distance by which the first astroid of a wave is moved away when the two
/// are too close.
pub const SHIFT: i64 = 100_000_000;

/// The first astroid is moved to the left when moving it to the right would
/// take it beyond this `x`.
pub const SHIFT_LIMIT: i64 = 110_000_000;

/// Fall speed of the first astroid of a wave, in units per second.
pub const SLOW_SPEED: u16 = 55;

/// Fall speed of the second astroid of a wave, in units per second.
pub const FAST_SPEED: u16 = 70;

/// Spin of the first astroid of a wave, in radians per second.
pub const SLOW_SPIN: i16 = 2;

/// Spin of the second astroid of a wave, in radians per second.
pub const FAST_SPIN: i16 = -2;

/// A falling obstacle.
#[derive(Clone, Copy, Debug, PartialEq, Eq, Structural)]
pub struct Astroid {
    /// Where the astroid is and how it is turned.
    pub transform: Transform,
    /// Fall speed, in units per second.
    pub astroid_speed: u16,
    /// Angular velocity, in radians per second; the sign gives the direction.
    pub rotate_direction: i16,
    /// Diameter of the sprite, in millionths of a unit; the collision radius
    /// derives from it.
    pub astroid_size: u32,
}

impl Astroid {
    /// The astroid after falling for `dt` microseconds.
    pub open spec fn fallen(self, dt: u32) -> Astroid {
        Astroid {
            transform: Transform {
                y: (self.transform.y - self.astroid_speed * dt) as i64,
                ..self.transform
            },
            ..self
        }
    }

    /// The astroid after spinning for `dt` microseconds.
    pub open spec fn rotated(self, dt: u32) -> Astroid {
        Astroid {
            transform: Transform {
                rotation: (self.transform.rotation + self.rotate_direction * dt) as i64,
                ..self.transform
            },
            ..self
        }
    }

    /// Whether the astroid has not yet fallen below the floor.
    pub open spec fn above_floor(self) -> bool {
        self.transform.y >= ASTROID_FLOOR
    }
}

/// The countdown to the next wave of astroids.
#[derive(Clone, Copy, Debug, PartialEq, Eq, Structural)]
pub struct AstroidSpawnTimer {
    pub timer: SpawnTimer,
}

impl Default for AstroidSpawnTimer {
    fn default() -> (t: AstroidSpawnTimer)
        ensures
            t.timer == SpawnTimer::at_rest(ASTROID_SPAWN_TIME),
    {
        AstroidSpawnTimer { timer: SpawnTimer::new(ASTROID_SPAWN_TIME) }
    }
}

/// The random draws that one wave of astroids is made of.
#[derive(Clone, Copy, Debug, PartialEq, Eq, Structural)]
pub struct AstroidDraws {
    /// Candidate `x` of the first astroid, in millionths of a unit.
    pub x1: i64,
    /// Candidate `x` of the second astroid, in millionths of a unit.
    pub x2: i64,
    /// Size of the first astroid, in whole units.
    pub size1: u32,
    /// Size of the second astroid, in whole units.
    pub size2: u32,
}

impl AstroidDraws {
    /// Whether each draw lies in the range it is drawn from.
    pub open spec fn valid(self) -> bool {
        &&& in_band(self.x1 as int)
        &&& in_band(self.x2 as int)
        &&& ASTROID_MIN_SIZE <= self.size1 <= ASTROID_MAX_SIZE
        &&& ASTROID_MIN_SIZE <= self.size2 <= ASTROID_MAX_SIZE
    }
}

/// Whether an `x` lies in the band in which astroids appear.
pub open spec fn in_band(x: int) -> bool {
    -ASTROID_MAX_X * UNIT <= x <= ASTROID_MAX_X * UNIT
}

/// Whether two candidate `x` positions differ by less than `MIN_GAP`.
pub open spec fn too_close(x1: int, x2: int) -> bool {
    -MIN_GAP < x1 - x2 < MIN_GAP
}

/// Where the first astroid of a wave goes, given the two candidates: it is
/// shifted by `SHIFT` when they are too close, to the left if a shift to the
/// right would pass `SHIFT_LIMIT`.
pub open spec fn kept_apart(x1: int, x2: int) -> int {
    if too_close(x1, x2) {
        if x1 + SHIFT > SHIFT_LIMIT {
            x1 - SHIFT
        } else {
            x1 + SHIFT
        }
    } else {
        x1
    }
}

/// A new astroid at the spawn height.
pub open spec fn new_astroid(x: int, size: u32, speed: u16, spin: i16) -> Astroid {
    Astroid {
        transform: Transform::at(x as i64, ASTROID_SPAWN_Y),
        astroid_speed: speed,
        rotate_direction: spin,
        astroid_size: (size * UNIT) as u32,
    }
}

/// The two astroids that the given draws make, in the order in which they
/// are created.
pub open spec fn astroid_wave(draws: AstroidDraws) -> Seq<Astroid> {
    seq![
        new_astroid(
            kept_apart(draws.x1 as int, draws.x2 as int),
            draws.size1,
            SLOW_SPEED,
            SLOW_SPIN,
        ),
        new_astroid(draws.x2 as int, draws.size2, FAST_SPEED, FAST_SPIN),
    ]
}

/// The astroids after each has fallen for `dt` microseconds.
pub open spec fn fallen_all(astroids: Seq<Astroid>, dt: u32) -> Seq<Astroid> {
    astroids.map_values(|a: Astroid| a.fallen(dt))
}

/// The astroids after each has spun for `dt` microseconds.
pub open spec fn rotated_all(astroids: Seq<Astroid>, dt: u32) -> Seq<Astroid> {
    astroids.map_values(|a: Astroid| a.rotated(dt))
}

/// The test that an astroid passes while it is above the floor.
pub open spec fn is_above_floor() -> spec_fn(Astroid) -> bool {
    |a: Astroid| a.above_floor()
}

/// The astroids that are left once those below the floor are removed, in
/// their old order.
pub open spec fn above_floor_only(astroids: Seq<Astroid>) -> Seq<Astroid> {
    astroids.filter(is_above_floor())
}

/// The astroids after a wave has been added, if the timer has just
/// finished; unchanged otherwise.
pub open spec fn with_wave(
    astroids: Seq<Astroid>,
    timer: AstroidSpawnTimer,
    draws: AstroidDraws,
) -> Seq<Astroid> {
    if timer.timer.finished {
        astroids + astroid_wave(draws)
    } else {
        astroids
    }
}

/// A random `x` for a new astroid: a whole number of units, at most
/// `ASTROID_MAX_X` from the centre line, on the left or the right with even
/// odds.
pub fn random_astroid_position(rng: &mut RandomSource) -> (x: i64)
    ensures
        in_band(x as int),
        x % UNIT == 0,
{
    let magnitude: u32 = rng.between(0, ASTROID_MAX_X);
    let change_sign = rng.coin_flip();
    signed_position(magnitude, change_sign)
}

/// Applies the separation rule to two candidate positions. Returns where
/// the first astroid goes and whether it had to be shifted.
pub fn keep_apart(x1: i64, x2: i64) -> (r: (i64, bool))
    ensures
        r.0 == kept_apart(x1 as int, x2 as int),
        r.1 == too_close(x1 as int, x2 as int),
{
    let gap: i128 = x1 as i128 - x2 as i128;
    if -(MIN_GAP as i128) < gap && gap < MIN_GAP as i128 {
        if x1 > SHIFT_LIMIT - SHIFT {
            (x1 - SHIFT, true)
        } else {
            (x1 + SHIFT, true)
        }
    } else {
        (x1, false)
    }
}

/// After the separation rule the two positions are never too close. Hence
/// they are at least `MIN_GAP` apart or the rule was applied, whichever the
/// candidates were.
pub proof fn lemma_kept_apart_separates(x1: int, x2: int)
    ensures
        !too_close(kept_apart(x1, x2), x2),
        !too_close(kept_apart(x1, x2), x2) || too_close(x1, x2),
        !too_close(x1, x2) ==> kept_apart(x1, x2) == x1,
{
}

/// The separation rule never moves an astroid out of the band in which
/// astroids appear.
pub proof fn lemma_kept_apart_stays_in_band(x1: int, x2: int)
    requires
        in_band(x1),
        in_band(x2),
    ensures
        in_band(kept_apart(x1, x2)),
{
}

/// Draws what one wave of astroids needs: two positions, then two sizes.
pub fn draw_astroids(rng: &mut RandomSource) -> (draws: AstroidDraws)
    ensures
        draws.valid(),
{
    let x1 = random_astroid_position(rng);
    let x2 = random_astroid_position(rng);
    let size1: u32 = rng.between(ASTROID_MIN_SIZE, ASTROID_MAX_SIZE);
    let size2: u32 = rng.between(ASTROID_MIN_SIZE, ASTROID_MAX_SIZE);
    AstroidDraws { x1, x2, size1, size2 }
}

/// Makes the two astroids of a wave from its draws. The first is the slow
/// one that spins counter-clockwise and is subject to the separation rule;
/// the second is the fast one that spins clockwise.
pub fn astroid_pair(draws: &AstroidDraws) -> (pair: (Astroid, Astroid))
    requires
        draws.valid(),
    ensures
        seq![pair.0, pair.1] == astroid_wave(*draws),
{
    let (x1, _) = keep_apart(draws.x1, draws.x2);
    let first = Astroid {
        transform: Transform::from_xy(x1, ASTROID_SPAWN_Y),
        astroid_speed: SLOW_SPEED,
        rotate_direction: SLOW_SPIN,
        astroid_size: draws.size1 * 1_000_000,
    };
    let second = Astroid {
        transform: Transform::from_xy(draws.x2, ASTROID_SPAWN_Y),
        astroid_speed: FAST_SPEED,
        rotate_direction: FAST_SPIN,
        astroid_size: draws.size2 * 1_000_000,
    };
    (first, second)
}

/// Adds the wave that the given draws make, if the timer has just finished.
pub fn spawn_astroid_wave(
    astroids: &mut Vec<Astroid>,
    timer: &AstroidSpawnTimer,
    draws: &AstroidDraws,
)
    requires
        draws.valid(),
    ensures
        final(astroids)@ == with_wave(old(astroids)@, *timer, *draws),
{
    if timer.timer.finished() {
        let (first, second) = astroid_pair(draws);
        astroids.push(first);
        astroids.push(second);
        assert(astroids@ == old(astroids)@ + seq![first, second]);
    }
}

/// Adds a wave of two randomly placed and sized astroids, if the timer has
/// just finished.
pub fn spawn_astroid_over_time(
    astroids: &mut Vec<Astroid>,
    timer: &AstroidSpawnTimer,
    rng: &mut RandomSource,
)
    ensures
        exists|draws: AstroidDraws|
            draws.valid() && final(astroids)@ == #[trigger] with_wave(
                old(astroids)@,
                *timer,
                draws,
            ),
{
    let draws = draw_astroids(rng);
    spawn_astroid_wave(astroids, timer, &draws);
}

/// Advances the countdown to the next wave by `dt` microseconds.
pub fn tick_astroid_timer(timer: &mut AstroidSpawnTimer, dt: u32)
    ensures
        final(timer).timer == old(timer).timer.ticked(dt),
{
    timer.timer.tick(dt);
}

/// Lets every astroid fall for `dt` microseconds: its `y` goes down by its
/// speed times `dt`, nothing else changes.
pub fn astroid_movement(astroids: &mut Vec<Astroid>, dt: u32)
    requires
        forall|i: int| 0 <= i < old(astroids).len() ==> old(astroids)[i].transform.in_reach(),
    ensures
        final(astroids)@ == fallen_all(old(astroids)@, dt),
{
    let n = astroids.len();
    let mut i: usize = 0;
    while i < n
        invariant
            i <= n,
            astroids.len() == n,
            old(astroids).len() == n,
            forall|j: int| 0 <= j < i ==> astroids[j] == old(astroids)[j].fallen(dt),
            forall|j: int| i <= j < n ==> astroids[j] == old(astroids)[j],
            forall|j: int| 0 <= j < n ==> old(astroids)[j].transform.in_reach(),
        decreases n - i,
    {
        let mut astroid = astroids[i];
        let amount: i64 = distance_covered(astroid.astroid_speed, dt);
        astroid.transform.y = astroid.transform.y - amount;
        astroids.set(i, astroid);
        i += 1;
    }
    assert(astroids@ =~= fallen_all(old(astroids)@, dt));
}

/// Lets every astroid spin for `dt` microseconds: its rotation grows by its
/// angular velocity times `dt`, nothing else changes.
pub fn rotate_astroid(astroids: &mut Vec<Astroid>, dt: u32)
    requires
        forall|i: int| 0 <= i < old(astroids).len() ==> old(astroids)[i].transform.in_reach(),
    ensures
        final(astroids)@ == rotated_all(old(astroids)@, dt),
{
    let n = astroids.len();
    let mut i: usize = 0;
    while i < n
        invariant
            i <= n,
            astroids.len() == n,
            old(astroids).len() == n,
            forall|j: int| 0 <= j < i ==> astroids[j] == old(astroids)[j].rotated(dt),
            forall|j: int| i <= j < n ==> astroids[j] == old(astroids)[j],
            forall|j: int| 0 <= j < n ==> old(astroids)[j].transform.in_reach(),
        decreases n - i,
    {
        let mut astroid = astroids[i];
        let amount: i64 = angle_turned(astroid.rotate_direction, dt);
        astroid.transform.rotation = astroid.transform.rotation + amount;
        astroids.set(i, astroid);
        i += 1;
    }
    assert(astroids@ =~= rotated_all(old(astroids)@, dt));
}

/// Removes every astroid that has fallen below the floor and keeps the
/// others in their order.
pub fn despawn_astroid(astroids: &mut Vec<Astroid>)
    ensures
        final(astroids)@ == above_floor_only(old(astroids)@),
{
    let n = astroids.len();
    let mut kept: Vec<Astroid> = Vec::new();
    let mut i: usize = 0;
    assert(astroids@.take(0) =~= Seq::<Astroid>::empty());
    reveal(Seq::filter);
    while i < n
        invariant
            i <= n,
            astroids.len() == n,
            astroids@ == old(astroids)@,
            kept@ == above_floor_only(astroids@.take(i as int)),
        decreases n - i,
    {
        let astroid = astroids[i];
        proof {
            assert(astroids@.take(i + 1) =~= astroids@.take(i as int).push(astroid));
            astroids@.take(i as int).lemma_filter_push(astroid, is_above_floor());
        }
        if astroid.transform.y >= ASTROID_FLOOR {
            kept.push(astroid);
        }
        i += 1;
    }
    assert(astroids@.take(n as int) =~= astroids@);
    *astroids = kept;
}

} // verus!
