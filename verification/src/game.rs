//! The whole simulation: the state that a frame works on, the fixed order
//! of its phases, and the two transitions between menu and round.

use crate::astroid::{
    above_floor_only, astroid_movement, astroid_wave, despawn_astroid, draw_astroids, fallen_all,
    in_band, is_above_floor,
    lemma_kept_apart_stays_in_band, rotate_astroid, rotated_all, spawn_astroid_wave,
    tick_astroid_timer, with_wave, Astroid, AstroidDraws, AstroidSpawnTimer, ASTROID_FLOOR,
    ASTROID_MAX_SIZE, ASTROID_MIN_SIZE, ASTROID_SPAWN_TIME, ASTROID_SPAWN_Y,
    FAST_SPEED, FAST_SPIN, SLOW_SPEED, SLOW_SPIN,
};
use crate::coin::{
    draw_coin, new_coin, spawn_coin, tick_coin_timer, with_coin, Coin, CoinDraws,
    CoinSpawnTimer, COIN_MAX_X, COIN_MAX_Y, COIN_SPAWN_TIME,
};
use crate::events::{GameEvent, GameState};
use crate::player::{
    character_movement, check_collision, coins_left, coins_taken, crashes, spawn_player,
    Collisions, Intent, Player, PLAYER_SPEED,
};
use crate::random::RandomSource;
use crate::score::{raised_to, update_high_score, HighScore};
use crate::timer::SpawnTimer;
use crate::transform::{Transform, UNIT};
use vstd::prelude::*;

verus! {

/// Farthest that the craft can be from the centre line: the bound of free
/// steering plus the longest single move.
pub const PLAYER_REACH_X: i64 = 343_717_383_600;

/// Farthest that the craft can be above or below the centre: the bound of
/// free steering plus the longest single move.
pub const PLAYER_REACH_Y: i64 = 343_687_383_600;

/// What the outside world contributes to one frame.
#[derive(Clone, Copy, Debug, PartialEq, Eq, Structural)]
pub struct Input {
    /// Whether the start key was pressed in this frame.
    pub start: bool,
    /// The directions held down in this frame.
    pub intent: Intent,
}

/// The random draws that one frame may use.
#[derive(Clone, Copy, Debug, PartialEq, Eq, Structural)]
pub struct FrameDraws {
    /// For the wave of astroids, should one be due.
    pub astroids: AstroidDraws,
    /// For the coin, should one be due.
    pub coin: CoinDraws,
}

impl FrameDraws {
    /// Whether each draw lies in the range it is drawn from.
    pub open spec fn valid(self) -> bool {
        self.astroids.valid() && self.coin.valid()
    }
}

/// The simulation state. It is owned by whoever drives the frames and is
/// changed only through the functions below.
pub struct Game {
    state: GameState,
    high_score: HighScore,
    astroid_timer: AstroidSpawnTimer,
    coin_timer: CoinSpawnTimer,
    player: Option<Player>,
    astroids: Vec<Astroid>,
    coins: Vec<Coin>,
    rng: RandomSource,
}

/// The simulation state as a mathematical value. The player, the astroids
/// and the coins together are the entities of a round: they exist only
/// while a round is running and go together when it ends.
pub struct GameView {
    pub state: GameState,
    pub high_score: HighScore,
    pub astroid_timer: AstroidSpawnTimer,
    pub coin_timer: CoinSpawnTimer,
    pub player: Option<Player>,
    pub astroids: Seq<Astroid>,
    pub coins: Seq<Coin>,
}

/// Whether an astroid is as the simulation keeps astroids between frames:
/// one of the two kinds, inside the band and between floor and spawn
/// height, of a size in range, and turned in proportion to the distance it
/// has fallen.
pub open spec fn astroid_in_play(a: Astroid) -> bool {
    &&& astroid_in_flight(a)
    &&& a.transform.y >= ASTROID_FLOOR
}

/// As `astroid_in_play`, but for the floor: what holds of an astroid in the
/// middle of a frame, after it has fallen and before those below the floor
/// are removed.
pub open spec fn astroid_in_flight(a: Astroid) -> bool {
    &&& in_band(a.transform.x as int)
    &&& ASTROID_FLOOR - FAST_SPEED * u32::MAX <= a.transform.y <= ASTROID_SPAWN_Y
    &&& ASTROID_MIN_SIZE * UNIT <= a.astroid_size <= ASTROID_MAX_SIZE * UNIT
    &&& {
        ||| {
            &&& a.astroid_speed == SLOW_SPEED
            &&& a.rotate_direction == SLOW_SPIN
            &&& SLOW_SPEED * a.transform.rotation == SLOW_SPIN * (ASTROID_SPAWN_Y
                - a.transform.y)
        }
        ||| {
            &&& a.astroid_speed == FAST_SPEED
            &&& a.rotate_direction == FAST_SPIN
            &&& FAST_SPEED * a.transform.rotation == FAST_SPIN * (ASTROID_SPAWN_Y
                - a.transform.y)
        }
    }
}

/// Whether a coin lies where coins appear.
pub open spec fn coin_in_play(c: Coin) -> bool {
    &&& -COIN_MAX_X * UNIT <= c.transform.x <= COIN_MAX_X * UNIT
    &&& -COIN_MAX_Y * UNIT <= c.transform.y <= COIN_MAX_Y * UNIT
    &&& c.transform.rotation == 0
}

/// Whether the craft is as the simulation keeps it: of the one speed,
/// unrotated, and no farther out than one move beyond the bounds of free
/// steering.
pub open spec fn player_in_play(p: Player) -> bool {
    &&& p.speed == PLAYER_SPEED
    &&& p.transform.rotation == 0
    &&& -PLAYER_REACH_X <= p.transform.x <= PLAYER_REACH_X
    &&& -PLAYER_REACH_Y <= p.transform.y <= PLAYER_REACH_Y
}

impl GameView {
    /// The state at the start of the process: in the menu, with a high score
    /// of zero.
    pub open spec fn initial() -> GameView {
        GameView {
            state: GameState::Menu,
            high_score: HighScore { score: 0 },
            astroid_timer: AstroidSpawnTimer { timer: SpawnTimer::at_rest(ASTROID_SPAWN_TIME) },
            coin_timer: CoinSpawnTimer { timer: SpawnTimer::at_rest(COIN_SPAWN_TIME) },
            player: None,
            astroids: Seq::empty(),
            coins: Seq::empty(),
        }
    }

    /// The invariant of the simulation. In the menu there are no entities of
    /// a round; in a round there is a player; and every entity is in play.
    pub open spec fn wf(self) -> bool {
        &&& self.astroid_timer.timer.interval == ASTROID_SPAWN_TIME
        &&& self.coin_timer.timer.interval == COIN_SPAWN_TIME
        &&& self.state == GameState::Menu ==> self.player is None && self.astroids.len() == 0
            && self.coins.len() == 0
        &&& self.state == GameState::Playing ==> self.player is Some
        &&& self.player matches Some(p) ==> player_in_play(p)
        &&& forall|i: int|
            0 <= i < self.astroids.len() ==> astroid_in_play(#[trigger] self.astroids[i])
        &&& forall|i: int| 0 <= i < self.coins.len() ==> coin_in_play(#[trigger] self.coins[i])
    }

    /// The state after the transition from menu to round: the menu is left,
    /// a fresh player stands at the origin and both timers start from zero.
    pub open spec fn started(self) -> GameView {
        GameView {
            state: GameState::Playing,
            player: Some(Player::fresh()),
            astroid_timer: AstroidSpawnTimer {
                timer: SpawnTimer::at_rest(self.astroid_timer.timer.interval),
            },
            coin_timer: CoinSpawnTimer {
                timer: SpawnTimer::at_rest(self.coin_timer.timer.interval),
            },
            ..self
        }
    }

    /// The state after the transition from round to menu: the high score is
    /// raised to the player's score if that is higher, and every entity of
    /// the round is gone. In the menu the transition changes nothing.
    pub open spec fn ended(self) -> GameView {
        if self.state == GameState::Menu {
            self
        } else {
            GameView {
                state: GameState::Menu,
                high_score: match self.player {
                    Some(p) => raised_to(self.high_score, p.score),
                    None => self.high_score,
                },
                player: None,
                astroids: Seq::empty(),
                coins: Seq::empty(),
                ..self
            }
        }
    }

    /// The state after the start signal has been looked at: a round starts
    /// if the signal is there and the game is in the menu.
    pub open spec fn after_signal(self, start: bool) -> GameView {
        if self.state == GameState::Menu && start {
            self.started()
        } else {
            self
        }
    }

    /// The craft after the steering phase of a frame.
    pub open spec fn craft_after(self, dt: u32, intent: Intent) -> Option<Player> {
        match self.player {
            Some(p) => Some(p.moved(intent, dt)),
            None => None,
        }
    }

    /// The countdown to the next wave after the clock phase of a frame.
    pub open spec fn astroid_timer_after(self, dt: u32) -> AstroidSpawnTimer {
        AstroidSpawnTimer { timer: self.astroid_timer.timer.ticked(dt) }
    }

    /// The countdown to the next coin after the clock phase of a frame.
    pub open spec fn coin_timer_after(self, dt: u32) -> CoinSpawnTimer {
        CoinSpawnTimer { timer: self.coin_timer.timer.ticked(dt) }
    }

    /// The astroids after the spawn, movement and removal phases of a frame:
    /// a wave that is due appears, every astroid, a new one too, falls and
    /// spins, and those below the floor go.
    pub open spec fn astroids_after(self, dt: u32, draws: FrameDraws) -> Seq<Astroid> {
        above_floor_only(
            rotated_all(
                fallen_all(
                    with_wave(self.astroids, self.astroid_timer_after(dt), draws.astroids),
                    dt,
                ),
                dt,
            ),
        )
    }

    /// The coins after the spawn phase of a frame, before the collision
    /// phase.
    pub open spec fn coins_after_spawn(self, dt: u32, draws: FrameDraws) -> Seq<Coin> {
        with_coin(self.coins, self.coin_timer_after(dt), draws.coin)
    }

    /// The number of coins that the craft picks up in a frame.
    pub open spec fn pickups(self, dt: u32, intent: Intent, draws: FrameDraws) -> nat {
        match self.craft_after(dt, intent) {
            Some(craft) => coins_taken(craft.transform, self.coins_after_spawn(dt, draws)),
            None => 0,
        }
    }

    /// Whether the craft runs into an astroid in a frame.
    pub open spec fn crash(self, dt: u32, intent: Intent, draws: FrameDraws) -> bool {
        match self.craft_after(dt, intent) {
            Some(craft) => crashes(craft.transform, self.astroids_after(dt, draws)),
            None => false,
        }
    }

    /// The state after one frame of a round. The phases run in this order:
    /// clock, spawn, movement, removal, collision, score, and the end of the
    /// round if the craft ran into an astroid. Without a player the steering,
    /// collision and score phases are skipped.
    pub open spec fn advanced(self, dt: u32, intent: Intent, draws: FrameDraws) -> GameView {
        let moved = GameView {
            astroid_timer: self.astroid_timer_after(dt),
            coin_timer: self.coin_timer_after(dt),
            astroids: self.astroids_after(dt, draws),
            coins: match self.craft_after(dt, intent) {
                Some(craft) => coins_left(craft.transform, self.coins_after_spawn(dt, draws)),
                None => self.coins_after_spawn(dt, draws),
            },
            player: match self.craft_after(dt, intent) {
                Some(craft) => Some(craft.rewarded(self.pickups(dt, intent, draws))),
                None => None,
            },
            ..self
        };
        if self.crash(dt, intent, draws) {
            moved.ended()
        } else {
            moved
        }
    }

    /// The state after one frame. In the menu a frame only looks at the
    /// start signal; in a round it advances the simulation.
    pub open spec fn stepped(self, dt: u32, input: Input, draws: FrameDraws) -> GameView {
        match self.state {
            GameState::Menu => self.after_signal(input.start),
            GameState::Playing => self.advanced(dt, input.intent, draws),
        }
    }

    /// The events that one frame reports: in the menu the start of a round,
    /// if one starts; in a round one event for each coin picked up and then,
    /// if the craft ran into an astroid, the loss of the round.
    pub open spec fn reported(self, dt: u32, input: Input, draws: FrameDraws) -> Seq<GameEvent> {
        match self.state {
            GameState::Menu => if input.start {
                seq![GameEvent::RoundStarted]
            } else {
                Seq::empty()
            },
            GameState::Playing => Seq::new(
                self.pickups(dt, input.intent, draws),
                |i: int| GameEvent::PickupCollected,
            ) + if self.crash(dt, input.intent, draws) {
                seq![GameEvent::RoundLost]
            } else {
                Seq::empty()
            },
        }
    }
}

impl View for Game {
    type V = GameView;

    closed spec fn view(&self) -> GameView {
        GameView {
            state: self.state,
            high_score: self.high_score,
            astroid_timer: self.astroid_timer,
            coin_timer: self.coin_timer,
            player: self.player,
            astroids: self.astroids@,
            coins: self.coins@,
        }
    }
}

impl Game {
    /// Whether the state satisfies the invariant of the simulation.
    pub open spec fn wf(&self) -> bool {
        self@.wf()
    }

    /// The state at the start of the process. The seed determines every
    /// random draw that `update` will make.
    pub fn new(seed: u64) -> (game: Game)
        ensures
            game.wf(),
            game@ == GameView::initial(),
    {
        Game {
            state: GameState::Menu,
            high_score: HighScore { score: 0 },
            astroid_timer: AstroidSpawnTimer::default(),
            coin_timer: CoinSpawnTimer::default(),
            player: None,
            astroids: Vec::new(),
            coins: Vec::new(),
            rng: RandomSource::from_seed(seed),
        }
    }

    /// The current state of the game.
    pub fn state(&self) -> (state: GameState)
        ensures
            state == self@.state,
    {
        self.state
    }

    /// The best score of the session.
    pub fn high_score(&self) -> (high_score: HighScore)
        ensures
            high_score == self@.high_score,
    {
        self.high_score
    }

    /// The player's craft, while there is one.
    pub fn player(&self) -> (player: Option<Player>)
        ensures
            player == self@.player,
    {
        self.player
    }

    /// The countdown to the next wave of astroids.
    pub fn astroid_timer(&self) -> (timer: AstroidSpawnTimer)
        ensures
            timer == self@.astroid_timer,
    {
        self.astroid_timer
    }

    /// The countdown to the next coin.
    pub fn coin_timer(&self) -> (timer: CoinSpawnTimer)
        ensures
            timer == self@.coin_timer,
    {
        self.coin_timer
    }

    /// The astroids that are in play, oldest first.
    pub fn astroids(&self) -> (astroids: &Vec<Astroid>)
        ensures
            astroids@ == self@.astroids,
    {
        &self.astroids
    }

    /// The coins that are in play, oldest first.
    pub fn coins(&self) -> (coins: &Vec<Coin>)
        ensures
            coins@ == self@.coins,
    {
        &self.coins
    }

    /// Ends the round: raises the high score if the player's score is
    /// higher, removes every entity of the round and goes to the menu.
    /// In the menu this does nothing. Returns whether a round ended.
    pub fn end_round(&mut self) -> (finished: bool)
        requires
            old(self).wf(),
        ensures
            final(self).wf(),
            final(self)@ == old(self)@.ended(),
            finished == (old(self)@.state == GameState::Playing),
    {
        if self.state == GameState::Playing {
            match self.player {
                Some(p) => {
                    update_high_score(&p, &mut self.high_score);
                },
                None => {},
            }
            self.player = None;
            self.astroids = Vec::new();
            self.coins = Vec::new();
            self.state = GameState::Menu;
            true
        } else {
            false
        }
    }

    /// One frame of a round, with the phases in their fixed order: clock,
    /// spawn, movement, removal, collision and score, then the end of the
    /// round if the craft ran into an astroid.
    fn advance(&mut self, dt: u32, intent: &Intent, draws: &FrameDraws) -> (found: Collisions)
        requires
            old(self).wf(),
            draws.valid(),
            old(self)@.state == GameState::Playing,
        ensures
            final(self).wf(),
            final(self)@ == old(self)@.advanced(dt, *intent, *draws),
            found.coins_collected == old(self)@.pickups(dt, *intent, *draws),
            found.crashed == old(self)@.crash(dt, *intent, *draws),
    {
        let ghost before = self@;
        tick_astroid_timer(&mut self.astroid_timer, dt);
        tick_coin_timer(&mut self.coin_timer, dt);
        spawn_astroid_wave(&mut self.astroids, &self.astroid_timer, &draws.astroids);
        spawn_coin(&mut self.coins, &self.coin_timer, &draws.coin);
        let ghost spawned = self.astroids@;
        proof {
            lemma_wave_in_play(draws.astroids);
            lemma_coin_in_play(draws.coin);
            assert forall|i: int| 0 <= i < spawned.len() implies astroid_in_play(
                #[trigger] spawned[i],
            ) by {
                if i < before.astroids.len() {
                    assert(spawned[i] == before.astroids[i]);
                } else {
                    assert(spawned[i] == astroid_wave(draws.astroids)[i - before.astroids.len()]);
                }
            }
            assert forall|i: int| 0 <= i < spawned.len() implies (
            #[trigger] spawned[i]).transform.in_reach() by {
                lemma_flight(spawned[i], dt);
            }
            assert forall|i: int| 0 <= i < self.coins@.len() implies coin_in_play(
                #[trigger] self.coins@[i],
            ) by {
                if i < before.coins.len() {
                    assert(self.coins@[i] == before.coins[i]);
                }
            }
        }
        astroid_movement(&mut self.astroids, dt);
        proof {
            assert forall|i: int| 0 <= i < self.astroids@.len() implies (
            #[trigger] self.astroids@[i]).transform.in_reach() by {
                lemma_flight(spawned[i], dt);
            }
        }
        rotate_astroid(&mut self.astroids, dt);
        let ghost flown = self.astroids@;
        proof {
            assert forall|i: int| 0 <= i < flown.len() implies astroid_in_flight(
                #[trigger] flown[i],
            ) by {
                lemma_flight(spawned[i], dt);
            }
        }
        despawn_astroid(&mut self.astroids);
        proof {
            lemma_astroids_left_in_play(flown);
        }
        let ghost coins = self.coins@;
        let found = match self.player {
            Some(craft) => {
                let mut craft = craft;
                proof {
                    lemma_craft_stays_in_play(craft, *intent, dt);
                }
                character_movement(&mut craft, intent, dt);
                let found = check_collision(&mut craft, &self.astroids, &mut self.coins);
                self.player = Some(craft);
                proof {
                    lemma_coins_left_in_play(craft.transform, coins);
                }
                found
            },
            None => Collisions { crashed: false, coins_collected: 0 },
        };
        if found.crashed {
            self.end_round();
        }
        found
    }

    /// One frame, with the random draws given by the caller. In the menu
    /// the frame only looks at the start signal. In a round it advances the
    /// simulation by `dt` microseconds. Returns the events of the frame.
    pub fn update_with(&mut self, dt: u32, input: &Input, draws: &FrameDraws) -> (events: Vec<
        GameEvent,
    >)
        requires
            old(self).wf(),
            draws.valid(),
        ensures
            final(self).wf(),
            final(self)@ == old(self)@.stepped(dt, *input, *draws),
            events@ == old(self)@.reported(dt, *input, *draws),
    {
        let mut events: Vec<GameEvent> = Vec::new();
        match self.state {
            GameState::Menu => {
                if state_transition(self, input.start) {
                    events.push(GameEvent::RoundStarted);
                }
            },
            GameState::Playing => {
                let found = self.advance(dt, &input.intent, draws);
                let mut i: usize = 0;
                while i < found.coins_collected
                    invariant
                        i <= found.coins_collected,
                        events.len() == i,
                        forall|j: int| 0 <= j < i ==> events[j] == GameEvent::PickupCollected,
                    decreases found.coins_collected - i,
                {
                    events.push(GameEvent::PickupCollected);
                    i += 1;
                }
                if found.crashed {
                    events.push(GameEvent::RoundLost);
                }
            },
        }
        assert(events@ =~= old(self)@.reported(dt, *input, *draws));
        events
    }

    /// One frame, with the random draws taken from the game's own source.
    /// The frame is the one that `update_with` makes of some draws that lie
    /// in their ranges.
    pub fn update(&mut self, dt: u32, input: &Input) -> (events: Vec<GameEvent>)
        requires
            old(self).wf(),
        ensures
            final(self).wf(),
            exists|draws: FrameDraws|
                draws.valid() && final(self)@ == #[trigger] old(self)@.stepped(dt, *input, draws)
                    && events@ == old(self)@.reported(dt, *input, draws),
    {
        let astroids = draw_astroids(&mut self.rng);
        let coin = draw_coin(&mut self.rng);
        let draws = FrameDraws { astroids, coin };
        self.update_with(dt, input, &draws)
    }
}

/// Looks at the start signal: in the menu, a start signal begins a round
/// with a fresh player and both timers at rest. In a round the signal is
/// ignored. Returns whether a round began.
pub fn state_transition(game: &mut Game, start: bool) -> (began: bool)
    requires
        old(game).wf(),
    ensures
        final(game).wf(),
        final(game)@ == old(game)@.after_signal(start),
        began == (old(game)@.state == GameState::Menu && start),
{
    if start && game.state == GameState::Menu {
        game.player = Some(spawn_player());
        game.astroid_timer.timer.reset();
        game.coin_timer.timer.reset();
        game.state = GameState::Playing;
        true
    } else {
        false
    }
}

/// The astroids of a new wave are in play.
proof fn lemma_wave_in_play(draws: AstroidDraws)
    requires
        draws.valid(),
    ensures
        astroid_wave(draws).len() == 2,
        astroid_in_play(astroid_wave(draws)[0]),
        astroid_in_play(astroid_wave(draws)[1]),
{
    lemma_kept_apart_stays_in_band(draws.x1 as int, draws.x2 as int);
}

/// A new coin is in play.
proof fn lemma_coin_in_play(draws: CoinDraws)
    requires
        draws.valid(),
    ensures
        coin_in_play(new_coin(draws)),
{
}

/// An astroid in play can fall and spin for one frame within the range of
/// its integers, and is in flight afterwards.
proof fn lemma_flight(a: Astroid, dt: u32)
    requires
        astroid_in_play(a),
    ensures
        a.transform.in_reach(),
        a.fallen(dt).transform.in_reach(),
        astroid_in_flight(a.fallen(dt).rotated(dt)),
{
    if a.astroid_speed == SLOW_SPEED {
        assert(a.astroid_speed * dt == 55 * dt);
        assert(a.rotate_direction * dt == 2 * dt);
    } else {
        assert(a.astroid_speed * dt == 70 * dt);
        assert(a.rotate_direction * dt == -2 * dt);
    }
}

/// Of astroids in flight, those above the floor are in play.
proof fn lemma_astroids_left_in_play(astroids: Seq<Astroid>)
    requires
        forall|i: int| 0 <= i < astroids.len() ==> astroid_in_flight(#[trigger] astroids[i]),
    ensures
        forall|i: int|
            0 <= i < above_floor_only(astroids).len() ==> astroid_in_play(
                #[trigger] above_floor_only(astroids)[i],
            ),
    decreases astroids.len(),
{
    reveal(Seq::filter);
    if astroids.len() > 0 {
        let earlier = astroids.drop_last();
        let last = astroids.last();
        lemma_astroids_left_in_play(earlier);
        assert forall|i: int| 0 <= i < above_floor_only(astroids).len() implies astroid_in_play(
            #[trigger] above_floor_only(astroids)[i],
        ) by {
            if i < above_floor_only(earlier).len() {
                assert(above_floor_only(astroids)[i] == above_floor_only(earlier)[i]);
            } else {
                assert(above_floor_only(astroids)[i] == last);
                assert(is_above_floor()(last));
            }
        }
    }
}

/// The coins that the craft leaves behind are in play if all were.
proof fn lemma_coins_left_in_play(p: Transform, coins: Seq<Coin>)
    requires
        forall|i: int| 0 <= i < coins.len() ==> coin_in_play(#[trigger] coins[i]),
    ensures
        forall|i: int|
            0 <= i < coins_left(p, coins).len() ==> coin_in_play(
                #[trigger] coins_left(p, coins)[i],
            ),
    decreases coins.len(),
{
    reveal(Seq::filter);
    if coins.len() > 0 {
        let earlier = coins.drop_last();
        lemma_coins_left_in_play(p, earlier);
        assert forall|i: int| 0 <= i < coins_left(p, coins).len() implies coin_in_play(
            #[trigger] coins_left(p, coins)[i],
        ) by {
            if i < coins_left(p, earlier).len() {
                assert(coins_left(p, coins)[i] == coins_left(p, earlier)[i]);
            } else {
                assert(coins_left(p, coins)[i] == coins.last());
            }
        }
    }
}

/// A craft in play can be steered for one frame within the range of its
/// integers, and is in play afterwards, whatever it picks up.
proof fn lemma_craft_stays_in_play(p: Player, intent: Intent, dt: u32)
    requires
        player_in_play(p),
    ensures
        p.transform.in_reach(),
        forall|collected: nat| player_in_play(#[trigger] p.moved(intent, dt).rewarded(collected)),
{
    assert(0 <= p.speed * dt <= 80 * 0xffff_ffff) by (nonlinear_arith)
        requires
            p.speed == 80,
            0 <= dt <= 0xffff_ffff,
    ;
}

/// The invariant of the simulation holds of the initial state.
pub proof fn lemma_initial_is_wf()
    ensures
        GameView::initial().wf(),
{
}

/// Every frame keeps the invariant of the simulation, whatever the time
/// step, the input and the draws.
pub proof fn lemma_stepped_keeps_wf(v: GameView, dt: u32, input: Input, draws: FrameDraws)
    requires
        v.wf(),
        draws.valid(),
    ensures
        v.stepped(dt, input, draws).wf(),
{
    if v.state == GameState::Playing {
        let intent = input.intent;
        let spawned = with_wave(v.astroids, v.astroid_timer_after(dt), draws.astroids);
        let flown = rotated_all(fallen_all(spawned, dt), dt);
        let coins = v.coins_after_spawn(dt, draws);
        lemma_wave_in_play(draws.astroids);
        lemma_coin_in_play(draws.coin);
        assert forall|i: int| 0 <= i < flown.len() implies astroid_in_flight(
            #[trigger] flown[i],
        ) by {
            if i < v.astroids.len() {
                assert(spawned[i] == v.astroids[i]);
            } else {
                assert(spawned[i] == astroid_wave(draws.astroids)[i - v.astroids.len()]);
            }
            lemma_flight(spawned[i], dt);
        }
        lemma_astroids_left_in_play(flown);
        assert forall|i: int| 0 <= i < coins.len() implies coin_in_play(#[trigger] coins[i]) by {
            if i < v.coins.len() {
                assert(coins[i] == v.coins[i]);
            }
        }
        let p = v.player->Some_0;
        lemma_craft_stays_in_play(p, intent, dt);
        lemma_coins_left_in_play(p.moved(intent, dt).transform, coins);
    }
}

/// The high score never goes down.
pub proof fn lemma_high_score_never_falls(v: GameView, dt: u32, input: Input, draws: FrameDraws)
    ensures
        v.stepped(dt, input, draws).high_score.score >= v.high_score.score,
{
}

/// Ending a round twice is ending it once: in the menu the transition from
/// round to menu changes nothing, so nothing is torn down a second time.
pub proof fn lemma_ended_is_idempotent(v: GameView)
    ensures
        v.state == GameState::Menu ==> v.ended() == v,
        v.ended().state == GameState::Menu,
        v.ended().ended() == v.ended(),
{
}

/// The two transitions are the only ways from one state to the other: a
/// frame leaves the menu only on a start signal, and leaves a round only
/// when the craft runs into an astroid.
pub proof fn lemma_only_two_transitions(v: GameView, dt: u32, input: Input, draws: FrameDraws)
    ensures
        v.state == GameState::Menu ==> (v.stepped(dt, input, draws).state == GameState::Playing
            <==> input.start),
        v.state == GameState::Menu && !input.start ==> v.stepped(dt, input, draws) == v,
        v.state == GameState::Playing ==> (v.stepped(dt, input, draws).state == GameState::Menu
            <==> v.crash(dt, input.intent, draws)),
{
}

} // verus!
