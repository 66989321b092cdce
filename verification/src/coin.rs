//! Coins: collectibles that stay where they appear until the player picks
//! them up.

use crate::random::RandomSource;
use crate::timer::SpawnTimer;
use crate::transform::{signed_position, signed_units, Transform};
use vstd::prelude::*;

verus! {

/// Time between two coins, in microseconds.
pub const COIN_SPAWN_TIME: u32 = 3_000_000;

/// Size of a coin, in millionths of a unit. The player picks a coin up when
/// their centres are closer than this.
pub const COIN_SIZE: u32 = 10_000_000;

/// Coins appear with `x` between minus and plus this many whole units.
pub const COIN_MAX_X: u32 = 125;

/// Coins appear with `y` between minus and plus this many whole units.
pub const COIN_MAX_Y: u32 = 60;

/// A collectible. It neither moves nor turns.
#[derive(Clone, Copy, Debug, PartialEq, Eq, Structural)]
pub struct Coin {
    /// Where the coin lies.
    pub transform: Transform,
}

/// The countdown to the next coin.
#[derive(Clone, Copy, Debug, PartialEq, Eq, Structural)]
pub struct CoinSpawnTimer {
    pub timer: SpawnTimer,
}

impl Default for CoinSpawnTimer {
    fn default() -> (t: CoinSpawnTimer)
        ensures
            t.timer == SpawnTimer::at_rest(COIN_SPAWN_TIME),
    {
        CoinSpawnTimer { timer: SpawnTimer::new(COIN_SPAWN_TIME) }
    }
}

/// The random draws that one coin is made of.
#[derive(Clone, Copy, Debug, PartialEq, Eq, Structural)]
pub struct CoinDraws {
    /// Horizontal distance from the centre, in whole units.
    pub x: u32,
    /// Vertical distance from the centre, in whole units.
    pub y: u32,
    /// Whether the coin is put on the left of the centre.
    pub flip_x: bool,
    /// Whether the coin is put below the centre.
    pub flip_y: bool,
}

impl CoinDraws {
    /// Whether each draw lies in the range it is drawn from.
    pub open spec fn valid(self) -> bool {
        self.x <= COIN_MAX_X && self.y <= COIN_MAX_Y
    }
}

/// The coin that the given draws make.
pub open spec fn new_coin(draws: CoinDraws) -> Coin {
    Coin {
        transform: Transform::at(
            signed_units(draws.x, draws.flip_x) as i64,
            signed_units(draws.y, draws.flip_y) as i64,
        ),
    }
}

/// The coins after one has been added, if the timer has just finished;
/// unchanged otherwise.
pub open spec fn with_coin(coins: Seq<Coin>, timer: CoinSpawnTimer, draws: CoinDraws) -> Seq<Coin> {
    if timer.timer.finished {
        coins.push(new_coin(draws))
    } else {
        coins
    }
}

/// Draws what one coin needs: two distances, then a side for each.
pub fn draw_coin(rng: &mut RandomSource) -> (draws: CoinDraws)
    ensures
        draws.valid(),
{
    let x: u32 = rng.between(0, COIN_MAX_X);
    let y: u32 = rng.between(0, COIN_MAX_Y);
    let flip_x = rng.coin_flip();
    let flip_y = rng.coin_flip();
    CoinDraws { x, y, flip_x, flip_y }
}

/// Makes a coin from its draws.
pub fn coin_from(draws: &CoinDraws) -> (coin: Coin)
    ensures
        coin == new_coin(*draws),
{
    Coin {
        transform: Transform::from_xy(
            signed_position(draws.x, draws.flip_x),
            signed_position(draws.y, draws.flip_y),
        ),
    }
}

/// Adds the coin that the given draws make, if the timer has just finished.
pub fn spawn_coin(coins: &mut Vec<Coin>, timer: &CoinSpawnTimer, draws: &CoinDraws)
    ensures
        final(coins)@ == with_coin(old(coins)@, *timer, *draws),
{
    if timer.timer.finished() {
        coins.push(coin_from(draws));
    }
}

/// Adds one randomly placed coin, if the timer has just finished.
pub fn spawn_coin_over_time(coins: &mut Vec<Coin>, timer: &CoinSpawnTimer, rng: &mut RandomSource)
    ensures
        exists|draws: CoinDraws|
            draws.valid() && final(coins)@ == #[trigger] with_coin(old(coins)@, *timer, draws),
{
    let draws = draw_coin(rng);
    spawn_coin(coins, timer, &draws);
}

/// Advances the countdown to the next coin by `dt` microseconds.
pub fn tick_coin_timer(timer: &mut CoinSpawnTimer, dt: u32)
    ensures
        final(timer).timer == old(timer).timer.ticked(dt),
{
    timer.timer.tick(dt);
}

} // verus!
