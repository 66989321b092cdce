//! The player's craft: how it is steered, and what it runs into.

use crate::astroid::Astroid;
use crate::coin::{Coin, COIN_SIZE};
use crate::score::{on_scored, score_after};
use crate::transform::{distance_covered, distance_squared, Transform};
use vstd::prelude::*;

verus! {

/// Speed of the craft, in units per second.
pub const PLAYER_SPEED: u16 = 80;

/// The craft is steered freely while its `x` lies between minus and plus
/// this bound, the bound included.
pub const PLAYER_MAX_X: i64 = 120_000_000;

/// The craft is steered freely while its `y` lies between minus and plus
/// this bound, the bound included.
pub const PLAYER_MAX_Y: i64 = 90_000_000;

/// The player's craft.
#[derive(Clone, Copy, Debug, PartialEq, Eq, Structural)]
pub struct Player {
    /// Where the craft is.
    pub transform: Transform,
    /// Speed of the craft, in units per second.
    pub speed: u16,
    /// Coins collected in the current round.
    pub score: u64,
}

/// The directions that the player is holding down.
#[derive(Clone, Copy, Debug, PartialEq, Eq, Structural)]
pub struct Intent {
    pub up: bool,
    pub down: bool,
    pub left: bool,
    pub right: bool,
}

/// What the collision pass found.
#[derive(Clone, Copy, Debug, PartialEq, Eq, Structural)]
pub struct Collisions {
    /// Whether the craft ran into at least one astroid.
    pub crashed: bool,
    /// How many coins the craft picked up.
    pub coins_collected: usize,
}

impl Player {
    /// The craft as a round begins: at the origin, with no coins.
    pub open spec fn fresh() -> Player {
        Player { transform: Transform::at(0, 0), speed: PLAYER_SPEED, score: 0 }
    }

    /// The craft after it has been steered for `dt` microseconds.
    pub open spec fn moved(self, intent: Intent, dt: u32) -> Player {
        Player { transform: steered(self.transform, self.speed * dt, intent), ..self }
    }

    /// The craft after it has picked up `collected` coins.
    pub open spec fn rewarded(self, collected: nat) -> Player {
        Player { score: score_after(self.score, collected), ..self }
    }
}

/// Whether a placement is inside the bounds of free steering. A placement
/// on a bound is inside.
pub open spec fn inside_bounds(t: Transform) -> bool {
    -PLAYER_MAX_X <= t.x <= PLAYER_MAX_X && -PLAYER_MAX_Y <= t.y <= PLAYER_MAX_Y
}

/// The part of `amount` that a direction contributes: all of it while the
/// direction is held, nothing otherwise.
pub open spec fn share(held: bool, amount: int) -> int {
    if held {
        amount
    } else {
        0
    }
}

/// Where a craft at `t` is after moving by `amount`. Inside the bounds, and
/// on them, it follows the directions held, opposite directions cancelling.
/// Beyond a bound it ignores them and is pushed back towards that bound, one
/// bound at a time: right, top, left, bottom.
pub open spec fn steered(t: Transform, amount: int, intent: Intent) -> Transform {
    if inside_bounds(t) {
        Transform {
            x: (t.x + share(intent.right, amount) - share(intent.left, amount)) as i64,
            y: (t.y + share(intent.up, amount) - share(intent.down, amount)) as i64,
            ..t
        }
    } else if t.x > PLAYER_MAX_X {
        Transform { x: (t.x - amount) as i64, ..t }
    } else if t.y > PLAYER_MAX_Y {
        Transform { y: (t.y - amount) as i64, ..t }
    } else if t.x < -PLAYER_MAX_X {
        Transform { x: (t.x + amount) as i64, ..t }
    } else {
        Transform { y: (t.y + amount) as i64, ..t }
    }
}

/// Whether a craft at `p` runs into an astroid of diameter `size` at `q`:
/// their centres are closer than 0.56 times the size. With `d` for the
/// distance, `d < 0.56 * size` is `25 * d < 14 * size`, and between
/// non-negative numbers that is the same as the inequality of the squares.
pub open spec fn meteor_hit(p: Transform, q: Transform, size: u32) -> bool {
    625 * distance_squared(p, q) < 196 * (size * size)
}

/// Whether a craft at `p` picks up a coin of the given size at `q`: their
/// centres are closer than the size.
pub open spec fn coin_hit(p: Transform, q: Transform, size: u32) -> bool {
    distance_squared(p, q) < size * size
}

/// Whether a craft at `p` runs into any of the astroids.
pub open spec fn crashes(p: Transform, astroids: Seq<Astroid>) -> bool {
    exists|i: int|
        0 <= i < astroids.len() && #[trigger] meteor_hit(
            p,
            astroids[i].transform,
            astroids[i].astroid_size,
        )
}

/// The test that a coin passes while a craft at `p` does not reach it.
pub open spec fn is_out_of_reach(p: Transform) -> spec_fn(Coin) -> bool {
    |c: Coin| !coin_hit(p, c.transform, COIN_SIZE)
}

/// The coins that a craft at `p` leaves behind, in their old order.
pub open spec fn coins_left(p: Transform, coins: Seq<Coin>) -> Seq<Coin> {
    coins.filter(is_out_of_reach(p))
}

/// The number of coins that a craft at `p` picks up.
pub open spec fn coins_taken(p: Transform, coins: Seq<Coin>) -> nat {
    (coins.len() - coins_left(p, coins).len()) as nat
}

/// The craft as a round begins: at the origin, with no coins.
pub fn spawn_player() -> (player: Player)
    ensures
        player == Player::fresh(),
{
    Player { transform: Transform::from_xy(0, 0), speed: PLAYER_SPEED, score: 0 }
}

/// Steers the craft for `dt` microseconds.
pub fn character_movement(player: &mut Player, intent: &Intent, dt: u32)
    requires
        old(player).transform.in_reach(),
    ensures
        *final(player) == old(player).moved(*intent, dt),
{
    let amount: i64 = distance_covered(player.speed, dt);
    let x = player.transform.x;
    let y = player.transform.y;
    if -PLAYER_MAX_X <= x && x <= PLAYER_MAX_X && -PLAYER_MAX_Y <= y && y <= PLAYER_MAX_Y {
        if intent.up {
            player.transform.y = player.transform.y + amount;
        }
        if intent.down {
            player.transform.y = player.transform.y - amount;
        }
        if intent.left {
            player.transform.x = player.transform.x - amount;
        }
        if intent.right {
            player.transform.x = player.transform.x + amount;
        }
    } else if x > PLAYER_MAX_X {
        player.transform.x = x - amount;
    } else if y > PLAYER_MAX_Y {
        player.transform.y = y - amount;
    } else if x < -PLAYER_MAX_X {
        player.transform.x = x + amount;
    } else {
        player.transform.y = y + amount;
    }
}

/// A craft that is inside the bounds or on one of them is never held in
/// place: a single direction that is held moves it by the whole amount.
/// Beyond a bound the craft always comes closer to that bound.
pub proof fn lemma_steering_never_sticks(t: Transform, amount: int, intent: Intent)
    requires
        t.in_reach(),
        0 <= amount <= 0xffff * 0xffff_ffff,
    ensures
        inside_bounds(t) && intent.left && !intent.right ==> steered(t, amount, intent).x == t.x
            - amount,
        inside_bounds(t) && intent.right && !intent.left ==> steered(t, amount, intent).x == t.x
            + amount,
        inside_bounds(t) && intent.down && !intent.up ==> steered(t, amount, intent).y == t.y
            - amount,
        inside_bounds(t) && intent.up && !intent.down ==> steered(t, amount, intent).y == t.y
            + amount,
        !inside_bounds(t) && amount > 0 ==> steered(t, amount, intent) != t,
{
}

/// Two centres that are at least `size` apart along one axis are at least
/// `size` apart.
proof fn lemma_far_apart(dx: int, dy: int, size: int)
    requires
        size >= 0,
        dx >= size || -dx >= size || dy >= size || -dy >= size,
    ensures
        dx * dx + dy * dy >= size * size,
        625 * (dx * dx + dy * dy) >= 196 * (size * size),
{
    assert(dx * dx >= 0 && dy * dy >= 0 && size * size >= 0) by (nonlinear_arith);
    if dx >= size {
        assert(dx * dx >= size * size) by (nonlinear_arith)
            requires
                dx >= size >= 0,
        ;
    } else if -dx >= size {
        assert(dx * dx >= size * size) by (nonlinear_arith)
            requires
                -dx >= size >= 0,
        ;
    } else if dy >= size {
        assert(dy * dy >= size * size) by (nonlinear_arith)
            requires
                dy >= size >= 0,
        ;
    } else {
        assert(dy * dy >= size * size) by (nonlinear_arith)
            requires
                -dy >= size >= 0,
        ;
    }
}

/// Offsets that are smaller than `size` along both axes have small squares.
proof fn lemma_close_by(dx: int, dy: int, size: int)
    requires
        0 <= size <= 0xffff_ffff,
        -size < dx < size,
        -size < dy < size,
    ensures
        0 <= dx * dx <= 0xffff_ffff * 0xffff_ffff,
        0 <= dy * dy <= 0xffff_ffff * 0xffff_ffff,
        0 <= size * size <= 0xffff_ffff * 0xffff_ffff,
{
    assert(0 <= dx * dx <= 0xffff_ffff * 0xffff_ffff) by (nonlinear_arith)
        requires
            -0xffff_ffff <= dx <= 0xffff_ffff,
    ;
    assert(0 <= dy * dy <= 0xffff_ffff * 0xffff_ffff) by (nonlinear_arith)
        requires
            -0xffff_ffff <= dy <= 0xffff_ffff,
    ;
    assert(0 <= size * size <= 0xffff_ffff * 0xffff_ffff) by (nonlinear_arith)
        requires
            0 <= size <= 0xffff_ffff,
    ;
}

/// Whether the craft at `position1` runs into an astroid of diameter
/// `thing_size` at `position2`.
pub fn player_colliding_with_meteor(
    position1: &Transform,
    position2: &Transform,
    thing_size: u32,
) -> (hit: bool)
    ensures
        hit == meteor_hit(*position1, *position2, thing_size),
{
    let dx: i128 = position1.x as i128 - position2.x as i128;
    let dy: i128 = position1.y as i128 - position2.y as i128;
    let size: i128 = thing_size as i128;
    if dx >= size || -dx >= size || dy >= size || -dy >= size {
        proof {
            lemma_far_apart(dx as int, dy as int, size as int);
        }
        false
    } else {
        proof {
            lemma_close_by(dx as int, dy as int, size as int);
        }
        625 * (dx * dx + dy * dy) < 196 * (size * size)
    }
}

/// Whether the craft at `position1` picks up a coin of size `thing_size` at
/// `position2`.
pub fn player_colliding_with_coin(
    position1: &Transform,
    position2: &Transform,
    thing_size: u32,
) -> (hit: bool)
    ensures
        hit == coin_hit(*position1, *position2, thing_size),
{
    let dx: i128 = position1.x as i128 - position2.x as i128;
    let dy: i128 = position1.y as i128 - position2.y as i128;
    let size: i128 = thing_size as i128;
    if dx >= size || -dx >= size || dy >= size || -dy >= size {
        proof {
            lemma_far_apart(dx as int, dy as int, size as int);
        }
        false
    } else {
        proof {
            lemma_close_by(dx as int, dy as int, size as int);
        }
        dx * dx + dy * dy < size * size
    }
}

/// The collision test for astroids is the comparison of the distance with
/// 0.56 times the size. For every whole number `d`: if `d` is no more than
/// the distance and the craft hits, then `d < 0.56 * size`; if `d` is no
/// less than the distance and `d < 0.56 * size`, then the craft hits. Where
/// the distance itself is a whole number `d`, the craft hits exactly when
/// `d < 0.56 * size`.
pub proof fn lemma_meteor_hit_compares_distance(p: Transform, q: Transform, size: u32, d: nat)
    ensures
        d * d <= distance_squared(p, q) && meteor_hit(p, q, size) ==> 100 * d < 56 * size,
        d * d >= distance_squared(p, q) && 100 * d < 56 * size ==> meteor_hit(p, q, size),
        d * d == distance_squared(p, q) ==> (meteor_hit(p, q, size) <==> 100 * d < 56 * size),
{
    let s = size as int;
    let dd = d as int;
    let a = 25 * dd;
    let b = 14 * s;
    assert(a * a == 625 * (dd * dd) && b * b == 196 * (s * s)) by (nonlinear_arith)
        requires
            a == 25 * dd,
            b == 14 * s,
    ;
    assert(a < b ==> a * a < b * b) by (nonlinear_arith)
        requires
            a >= 0,
            b >= 0,
    ;
    assert(a >= b ==> a * a >= b * b) by (nonlinear_arith)
        requires
            a >= 0,
            b >= 0,
    ;
}

/// The collision test for coins is the comparison of the distance with the
/// size, in the same sense as for astroids.
pub proof fn lemma_coin_hit_compares_distance(p: Transform, q: Transform, size: u32, d: nat)
    ensures
        d * d <= distance_squared(p, q) && coin_hit(p, q, size) ==> d < size,
        d * d >= distance_squared(p, q) && d < size ==> coin_hit(p, q, size),
        d * d == distance_squared(p, q) ==> (coin_hit(p, q, size) <==> d < size),
{
    let s = size as int;
    let dd = d as int;
    assert(dd < s ==> dd * dd < s * s) by (nonlinear_arith)
        requires
            dd >= 0,
            s >= 0,
    ;
    assert(dd >= s ==> dd * dd >= s * s) by (nonlinear_arith)
        requires
            dd >= 0,
            s >= 0,
    ;
}

/// Whether the craft runs into any of the astroids.
pub fn hits_any_astroid(position: &Transform, astroids: &Vec<Astroid>) -> (crashed: bool)
    ensures
        crashed == crashes(*position, astroids@),
{
    let n = astroids.len();
    let mut crashed = false;
    let mut i: usize = 0;
    while i < n
        invariant
            i <= n,
            astroids.len() == n,
            crashed == crashes(*position, astroids@.take(i as int)),
        decreases n - i,
    {
        let astroid = astroids[i];
        let hit = player_colliding_with_meteor(position, &astroid.transform, astroid.astroid_size);
        proof {
            let before = astroids@.take(i as int);
            let after = astroids@.take(i + 1);
            assert(after[i as int] == astroid);
            if crashes(*position, before) {
                let k = choose|k: int|
                    0 <= k < before.len() && #[trigger] meteor_hit(
                        *position,
                        before[k].transform,
                        before[k].astroid_size,
                    );
                assert(after[k] == before[k]);
            }
            if crashes(*position, after) && !hit {
                let k = choose|k: int|
                    0 <= k < after.len() && #[trigger] meteor_hit(
                        *position,
                        after[k].transform,
                        after[k].astroid_size,
                    );
                assert(before[k] == after[k]);
            }
        }
        if hit {
            crashed = true;
        }
        i += 1;
    }
    assert(astroids@.take(n as int) =~= astroids@);
    crashed
}

/// Tests the craft against every astroid and every coin. Each coin within
/// reach is removed and counted once for the player; the other coins stay in
/// their order. Running into an astroid is reported, and changes nothing
/// here.
pub fn check_collision(
    player: &mut Player,
    astroids: &Vec<Astroid>,
    coins: &mut Vec<Coin>,
) -> (found: Collisions)
    ensures
        found.crashed == crashes(old(player).transform, astroids@),
        found.coins_collected == coins_taken(old(player).transform, old(coins)@),
        final(coins)@ == coins_left(old(player).transform, old(coins)@),
        *final(player) == old(player).rewarded(found.coins_collected as nat),
{
    let position = player.transform;
    let crashed = hits_any_astroid(&position, astroids);
    let n = coins.len();
    let mut left: Vec<Coin> = Vec::new();
    let mut taken: usize = 0;
    let mut i: usize = 0;
    assert(coins@.take(0) =~= Seq::<Coin>::empty());
    reveal(Seq::filter);
    while i < n
        invariant
            i <= n,
            coins.len() == n,
            coins@ == old(coins)@,
            position == old(player).transform,
            left@ == coins_left(position, coins@.take(i as int)),
            taken + left.len() == i,
            *player == old(player).rewarded(taken as nat),
        decreases n - i,
    {
        let coin = coins[i];
        proof {
            assert(coins@.take(i + 1) =~= coins@.take(i as int).push(coin));
            coins@.take(i as int).lemma_filter_push(coin, is_out_of_reach(position));
        }
        if player_colliding_with_coin(&position, &coin.transform, COIN_SIZE) {
            on_scored(player);
            taken += 1;
        } else {
            left.push(coin);
        }
        i += 1;
    }
    assert(coins@.take(n as int) =~= coins@);
    *coins = left;
    Collisions { crashed, coins_collected: taken }
}

} // verus!
