use space_game::astroid::{Astroid, AstroidDraws};
use space_game::coin::{Coin, CoinDraws};
use space_game::events::{GameEvent, GameState};
use space_game::game::{state_transition, FrameDraws, Game, Input};
use space_game::player::{Intent, Player};
use space_game::score::{display_score, HighScore};
use space_game::timer::SpawnTimer;
use space_game::transform::Transform;

const IDLE: Intent = Intent { up: false, down: false, left: false, right: false };
const RIGHT: Intent = Intent { up: false, down: false, left: false, right: true };
const WAIT: Input = Input { start: false, intent: IDLE };
const START: Input = Input { start: true, intent: IDLE };

fn at(x: i64, y: i64) -> Transform {
    Transform { x, y, rotation: 0 }
}

fn draws(x1: i64, x2: i64, coin_x: u32, coin_y: u32) -> FrameDraws {
    FrameDraws {
        astroids: AstroidDraws { x1: x1 * 1_000_000, x2: x2 * 1_000_000, size1: 25, size2: 60 },
        coin: CoinDraws { x: coin_x, y: coin_y, flip_x: false, flip_y: false },
    }
}

fn apart() -> FrameDraws {
    draws(100, -100, 125, 60)
}

#[test]
fn game_begins_in_the_menu() {
    let game = Game::new(0);
    assert_eq!(game.state(), GameState::Menu);
    assert_eq!(GameState::default(), GameState::Menu);
    assert_eq!(game.high_score(), HighScore { score: 0 });
    assert_eq!(game.player(), None);
    assert!(game.astroids().is_empty());
    assert!(game.coins().is_empty());
    assert_eq!(game.astroid_timer().timer, SpawnTimer::new(1_200_000));
    assert_eq!(game.coin_timer().timer, SpawnTimer::new(3_000_000));
}

#[test]
fn menu_is_stable_until_the_start_signal() {
    let mut game = Game::new(0);
    for _ in 0..10 {
        let events = game.update_with(3_000_000, &Input { start: false, intent: RIGHT }, &apart());
        assert!(events.is_empty());
        assert_eq!(game.state(), GameState::Menu);
        assert_eq!(game.player(), None);
        assert!(game.astroids().is_empty());
        assert!(game.coins().is_empty());
        assert_eq!(game.astroid_timer().timer, SpawnTimer::new(1_200_000));
    }
    assert!(!state_transition(&mut game, false));
    assert_eq!(game.state(), GameState::Menu);
}

#[test]
fn start_signal_begins_a_round() {
    let mut game = Game::new(0);
    let events = game.update_with(3_000_000, &Input { start: true, intent: RIGHT }, &apart());
    assert_eq!(events, vec![GameEvent::RoundStarted]);
    assert_eq!(game.state(), GameState::Playing);
    assert_eq!(game.player(), Some(Player { transform: at(0, 0), speed: 80, score: 0 }));
    assert!(game.astroids().is_empty());
    assert!(game.coins().is_empty());
    assert_eq!(game.astroid_timer().timer, SpawnTimer::new(1_200_000));
    assert_eq!(game.coin_timer().timer, SpawnTimer::new(3_000_000));
}

#[test]
fn start_signal_in_a_round_is_ignored() {
    let mut game = Game::new(0);
    assert!(state_transition(&mut game, true));
    game.update_with(500_000, &Input { start: false, intent: RIGHT }, &apart());
    let before = game.player();
    assert!(!state_transition(&mut game, true));
    assert_eq!(game.player(), before);
    assert_eq!(game.state(), GameState::Playing);
    let events = game.update_with(0, &START, &apart());
    assert!(events.is_empty());
    assert_eq!(game.player(), before);
}

#[test]
fn round_is_stable_without_a_crash() {
    let mut game = Game::new(0);
    game.update_with(0, &START, &apart());
    for _ in 0..2000 {
        let events = game.update_with(16_667, &WAIT, &apart());
        assert!(events.is_empty());
        assert_eq!(game.state(), GameState::Playing);
    }
    assert_eq!(game.player(), Some(Player { transform: at(0, 0), speed: 80, score: 0 }));
    // 33.334 s: 27 waves of which only the youngest astroids are still above the floor
    assert_eq!(game.astroid_timer().timer.elapsed, 33_334_000 % 1_200_000);
    assert_eq!(game.coins().len(), 11);
    assert!(game.astroids().iter().all(|a| a.transform.y >= -120_000_000));
    assert_eq!(game.astroids().len(), 7);
}

#[test]
fn frame_runs_its_phases_in_order() {
    let mut game = Game::new(0);
    game.update_with(0, &START, &apart());
    // the wave that is due in this frame falls and spins in this frame
    let events = game.update_with(3_000_000, &WAIT, &draws(30, 10, 40, 0));
    assert!(events.is_empty());
    assert_eq!(
        game.astroids(),
        &vec![
            Astroid {
                transform: Transform { x: -70_000_000, y: -25_000_000, rotation: 6_000_000 },
                astroid_speed: 55,
                rotate_direction: 2,
                astroid_size: 25_000_000,
            },
            Astroid {
                transform: Transform { x: 10_000_000, y: -70_000_000, rotation: -6_000_000 },
                astroid_speed: 70,
                rotate_direction: -2,
                astroid_size: 60_000_000,
            },
        ]
    );
    assert_eq!(game.coins(), &vec![Coin { transform: at(40_000_000, 0) }]);
    assert_eq!(game.astroid_timer().timer.elapsed, 600_000);
    assert_eq!(game.coin_timer().timer.elapsed, 0);
    // the fast one passes the floor 0.72 s later and is removed in that frame
    game.update_with(720_000, &WAIT, &apart());
    assert_eq!(game.astroids().len(), 3);
    assert_eq!(game.astroids()[0].transform.y, -25_000_000 - 55 * 720_000);
    assert_eq!(game.astroids()[1].transform.x, 100_000_000);
}

#[test]
fn astroid_spawned_on_the_player_is_met_in_the_same_frame() {
    let mut game = Game::new(0);
    game.update_with(0, &START, &apart());
    // 140 units at 70 units per second: the second astroid of the wave is at the origin after 2 s
    let events = game.update_with(2_000_000, &WAIT, &draws(100, 0, 125, 60));
    assert_eq!(events, vec![GameEvent::RoundLost]);
    assert_eq!(game.state(), GameState::Menu);
}

#[test]
fn coin_spawned_on_the_player_is_collected_in_the_same_frame() {
    let mut game = Game::new(0);
    game.update_with(0, &START, &apart());
    let events = game.update_with(3_000_000, &WAIT, &draws(100, -100, 9, 0));
    assert_eq!(events, vec![GameEvent::PickupCollected]);
    assert!(game.coins().is_empty());
    assert_eq!(display_score(&game.player()), 1);
    assert_eq!(game.high_score().score, 0);
}

#[test]
fn whole_round_from_menu_to_menu() {
    let mut game = Game::new(7);
    assert_eq!(game.state(), GameState::Menu);
    assert_eq!(game.high_score().score, 0);

    let events = game.update_with(16_000, &START, &apart());
    assert_eq!(events, vec![GameEvent::RoundStarted]);
    assert_eq!(game.state(), GameState::Playing);
    assert_eq!(display_score(&game.player()), 0);
    assert_eq!(game.player().map(|p| p.transform), Some(at(0, 0)));

    // 3 s: both timers fire once; one wave of two astroids and one coin
    let events = game.update_with(3_000_000, &WAIT, &draws(100, -100, 40, 0));
    assert!(events.is_empty());
    assert!(game.astroid_timer().timer.finished());
    assert!(game.coin_timer().timer.finished());
    assert_eq!(game.astroids().len(), 2);
    assert_eq!(game.coins().len(), 1);
    assert_eq!(game.coins()[0].transform, at(40_000_000, 0));

    // half a second to the right puts the player on the coin
    let events = game.update_with(500_000, &Input { start: false, intent: RIGHT }, &apart());
    assert_eq!(events, vec![GameEvent::PickupCollected]);
    assert_eq!(game.player().map(|p| p.transform), Some(at(40_000_000, 0)));
    assert_eq!(display_score(&game.player()), 1);
    assert!(game.coins().is_empty());
    assert_eq!(game.astroids().len(), 2);
    assert_eq!(game.high_score().score, 0);
    assert_eq!(game.state(), GameState::Playing);

    // the next wave puts a slow astroid right above the player
    let events = game.update_with(100_000, &WAIT, &draws(40, -100, 125, 60));
    assert!(events.is_empty());
    assert_eq!(game.astroids().len(), 4);
    assert_eq!(
        game.astroids()[2].transform,
        Transform { x: 40_000_000, y: 134_500_000, rotation: 200_000 }
    );

    // 2.4 s later it is 2.5 units above the player: closer than 0.56 * 25 units
    let events = game.update_with(2_400_000, &WAIT, &apart());
    assert_eq!(events, vec![GameEvent::RoundLost]);
    assert_eq!(game.state(), GameState::Menu);
    assert_eq!(game.high_score().score, 1);
    assert_eq!(game.player(), None);
    assert!(game.astroids().is_empty());
    assert!(game.coins().is_empty());
    assert_eq!(display_score(&game.player()), 0);
}

#[test]
fn ending_a_round_in_the_menu_does_nothing() {
    let mut game = Game::new(0);
    assert!(!game.end_round());
    assert_eq!(game.state(), GameState::Menu);
    assert_eq!(game.high_score().score, 0);

    game.update_with(0, &START, &apart());
    game.update_with(3_000_000, &WAIT, &draws(100, -100, 0, 0));
    assert_eq!(display_score(&game.player()), 1);
    assert!(game.end_round());
    assert_eq!(game.state(), GameState::Menu);
    assert_eq!(game.high_score().score, 1);
    assert_eq!(game.player(), None);
    assert!(game.astroids().is_empty());
    let timer = game.astroid_timer();

    assert!(!game.end_round());
    assert_eq!(game.state(), GameState::Menu);
    assert_eq!(game.high_score().score, 1);
    assert_eq!(game.player(), None);
    assert!(game.astroids().is_empty());
    assert!(game.coins().is_empty());
    assert_eq!(game.astroid_timer(), timer);
}

#[test]
fn high_score_keeps_the_best_round() {
    let mut game = Game::new(0);
    let coin_here = draws(100, -100, 0, 0);
    let crash_here = draws(100, 0, 125, 60);
    let mut best = 0;
    for coins in [2u64, 5, 0, 3, 5, 6] {
        game.update_with(0, &START, &apart());
        assert_eq!(display_score(&game.player()), 0);
        assert_eq!(game.astroid_timer().timer, SpawnTimer::new(1_200_000));
        assert_eq!(game.coin_timer().timer, SpawnTimer::new(3_000_000));
        for n in 1..=coins {
            // a still player collects the coin that appears on it every 3 s;
            // the astroids of these frames fall by on both sides
            let events = game.update_with(3_000_000, &WAIT, &coin_here);
            assert_eq!(events, vec![GameEvent::PickupCollected]);
            assert_eq!(display_score(&game.player()), n);
            assert_eq!(game.high_score().score, best);
        }
        // 4.4 s into the period of 1.2 s: a wave is due 2 s after this frame begins
        game.update_with(1_000_000, &WAIT, &apart());
        game.update_with(1_000_000, &WAIT, &apart());
        game.update_with(400_000, &WAIT, &apart());
        assert_eq!(game.state(), GameState::Playing);
        let events = game.update_with(2_000_000, &WAIT, &crash_here);
        assert_eq!(events.last(), Some(&GameEvent::RoundLost));
        best = best.max(coins);
        assert_eq!(game.high_score().score, best);
        assert_eq!(game.state(), GameState::Menu);
    }
    assert_eq!(game.high_score().score, 6);
}

#[test]
fn coin_and_crash_in_one_frame_both_count() {
    let mut game = Game::new(0);
    game.update_with(0, &START, &apart());
    game.update_with(1_000_000, &WAIT, &apart());
    // wave and coin are both due 2 s later; astroid and coin both land on the player
    let events = game.update_with(2_000_000, &WAIT, &draws(100, 0, 0, 0));
    assert_eq!(events, vec![GameEvent::PickupCollected, GameEvent::RoundLost]);
    assert_eq!(game.state(), GameState::Menu);
    assert_eq!(game.high_score().score, 1);
}

#[test]
fn same_seed_gives_the_same_game() {
    let mut a = Game::new(42);
    let mut b = Game::new(42);
    let mut c = Game::new(43);
    let mut differs = false;
    for frame in 0..3000u32 {
        let input = Input {
            start: true,
            intent: Intent {
                up: frame % 7 < 3,
                down: frame % 11 < 4,
                left: frame % 5 < 2,
                right: frame % 3 < 1,
            },
        };
        let events = a.update(16_667, &input);
        assert_eq!(events, b.update(16_667, &input));
        c.update(16_667, &input);
        assert_eq!(a.state(), b.state());
        assert_eq!(a.player(), b.player());
        assert_eq!(a.astroids(), b.astroids());
        assert_eq!(a.coins(), b.coins());
        assert_eq!(a.high_score(), b.high_score());
        if a.astroids() != c.astroids() {
            differs = true;
        }
    }
    assert!(differs);
}

#[test]
fn random_game_keeps_its_entities_in_play() {
    let mut game = Game::new(2024);
    let mut rounds = 0;
    let mut collected = 0;
    let mut high = 0;
    for frame in 0..60_000u32 {
        let input = Input {
            start: true,
            intent: Intent {
                up: frame % 400 < 100,
                down: frame % 400 >= 200 && frame % 400 < 300,
                left: frame % 900 < 300,
                right: frame % 900 >= 450 && frame % 900 < 750,
            },
        };
        let dt = 10_000 + frame % 13_000;
        let before = display_score(&game.player());
        let events = game.update(dt, &input);
        let pickups = events.iter().filter(|e| **e == GameEvent::PickupCollected).count() as u64;
        collected += pickups;
        if events.contains(&GameEvent::RoundStarted) {
            rounds += 1;
            assert_eq!(events.len(), 1);
            assert_eq!(game.player(), Some(Player { transform: at(0, 0), speed: 80, score: 0 }));
        }
        if events.contains(&GameEvent::RoundLost) {
            assert_eq!(game.state(), GameState::Menu);
            assert_eq!(game.high_score().score, high.max(before + pickups));
        } else if game.state() == GameState::Playing && pickups > 0 {
            assert_eq!(display_score(&game.player()), before + pickups);
        }
        assert!(game.high_score().score >= high);
        high = game.high_score().score;
        match game.state() {
            GameState::Menu => {
                assert_eq!(game.player(), None);
                assert!(game.astroids().is_empty());
                assert!(game.coins().is_empty());
            }
            GameState::Playing => {
                let player = game.player().expect("a round has a player");
                assert!(player.transform.x.abs() <= 120_000_000 + 80 * 23_000);
                assert!(player.transform.y.abs() <= 90_000_000 + 80 * 23_000);
            }
        }
        for astroid in game.astroids() {
            let t = astroid.transform;
            assert!((-120_000_000..=120_000_000).contains(&t.x));
            assert!((-120_000_000..=140_000_000).contains(&t.y));
            assert!((25_000_000..=60_000_000).contains(&astroid.astroid_size));
            assert_eq!(
                astroid.astroid_speed as i64 * t.rotation,
                astroid.rotate_direction as i64 * (140_000_000 - t.y)
            );
        }
        for coin in game.coins() {
            assert!((-125_000_000..=125_000_000).contains(&coin.transform.x));
            assert!((-60_000_000..=60_000_000).contains(&coin.transform.y));
        }
    }
    assert!(rounds > 3);
    assert!(collected > 0);
    assert!(high > 0);
}
