use rand::rngs::StdRng;
use rand::SeedableRng;
use rust_invaders::entities::{Enemy, Faction, Laser};
use rust_invaders::formation::{Formation, WinSize};
use rust_invaders::game::{Effect, Game, GameState, Input, Sound, Sprites};
use rust_invaders::geometry::{Point, Size};

fn art() -> Sprites {
    Sprites {
        player: Size::new(144_000, 75_000),
        enemy: Size::new(93_000, 84_000),
        player_laser: Size::new(9_000, 54_000),
        enemy_laser: Size::new(17_000, 55_000),
    }
}

fn game() -> Game {
    Game::new(WinSize::new(676_000, 598_000).unwrap(), art())
}

fn bearing(rise: i64, run: i64) -> i64 {
    ((rise as f64).atan2(run as f64) * 1e6).round() as i64
}

fn circle(angle: i64) -> (i64, i64) {
    let a = angle as f64 / 1e6;
    ((a.cos() * 1e6).round() as i64, (a.sin() * 1e6).round() as i64)
}

fn bolt(x: i64, y: i64, faction: Faction) -> Laser {
    Laser { position: Point::new(x, y), size: Size::new(9_000, 54_000), speed: 500_000, faction, paused: false }
}

fn populated() -> Game {
    let mut g = game();
    let mut rng = StdRng::seed_from_u64(11);
    g.player_spawn(0);
    g.enemy_spawn(&mut rng, &bearing);
    g.enemy_spawn(&mut rng, &bearing);
    g.lasers.push(bolt(5_000, 0, Faction::FromPlayer));
    g.lasers.push(bolt(-5_000, 100_000, Faction::FromEnemy));
    g
}

#[test]
fn states_toggle_between_active_and_paused() {
    assert_eq!(GameState::Active.toggle(), GameState::Paused);
    assert_eq!(GameState::Paused.toggle(), GameState::Active);
    assert_eq!(GameState::GameOver.toggle(), GameState::GameOver);
    assert!(GameState::Paused.is_frozen());
    assert!(!GameState::Active.is_frozen());
    assert!(!GameState::GameOver.is_frozen());
    assert!(GameState::GameOver.is_game_over());
    assert!(!GameState::Paused.is_game_over());
}

#[test]
fn pause_key_reaches_every_entity() {
    let mut g = populated();
    g.pause_game(true);
    assert_eq!(g.state, GameState::Paused);
    assert!(g.player.unwrap().paused);
    assert!(g.lasers.iter().all(|l| l.paused));
    assert!(g.enemies.iter().all(|e| e.paused));
    assert_eq!(g.lasers.len(), 2);
    assert_eq!(g.enemies.len(), 2);
    assert!(g.is_valid());
    g.pause_game(true);
    assert_eq!(g.state, GameState::Active);
    assert!(!g.player.unwrap().paused);
    assert!(g.lasers.iter().all(|l| !l.paused));
    assert!(g.enemies.iter().all(|e| !e.paused));
    assert!(g.is_valid());
}

#[test]
fn pause_and_resume_give_back_the_same_game() {
    let mut g = populated();
    let before = g.clone();
    g.pause_game(true);
    assert_ne!(g, before);
    g.pause_game(true);
    assert_eq!(g, before);
}

#[test]
fn pause_key_not_pressed_changes_nothing() {
    let mut g = populated();
    g.pause_game(false);
    assert_eq!(g.state, GameState::Active);
    assert!(g.lasers.iter().all(|l| !l.paused));
}

#[test]
fn pause_key_is_dead_once_game_is_over() {
    let mut g = game();
    g.state = GameState::GameOver;
    g.lasers.push(bolt(0, 0, Faction::FromEnemy));
    g.pause_game(true);
    assert_eq!(g.state, GameState::GameOver);
    assert!(!g.lasers[0].paused);
    g.pause_game(true);
    assert_eq!(g.state, GameState::GameOver);
}

#[test]
fn paused_systems_change_no_position_and_no_timer() {
    let mut g = populated();
    g.player_fire(true, false, 100_000);
    g.pause_game(true);
    let frozen = g.clone();
    for _ in 0..10 {
        g.enemy_movement(&circle, 16_667);
        g.player_movement(true, false, 16_667);
        g.laser_movement(16_667);
        g.enemy_laser_movement(16_667);
        g.player_fire(true, true, 1_000_000);
        g.enemy_fire(1_000_000);
        g.enemy_laser_hit_player(5, 1_000_000);
    }
    assert_eq!(g, frozen);
}

#[test]
fn resumed_game_follows_the_unpaused_trajectory() {
    let mut straight = populated();
    let mut halted = populated();
    let keys = Input { pause: false, left: true, right: false, fire: true, fire_released: false };
    let step = |g: &mut Game| {
        g.enemy_movement(&circle, 16_667);
        g.player_movement(keys.left, keys.right, 16_667);
        g.laser_movement(16_667);
        g.enemy_laser_movement(16_667);
        g.player_fire(keys.fire, keys.fire_released, 16_667);
        g.enemy_fire(16_667);
    };
    for _ in 0..5 {
        step(&mut straight);
        step(&mut halted);
    }
    halted.pause_game(true);
    for _ in 0..7 {
        step(&mut halted);
    }
    halted.pause_game(true);
    for _ in 0..60 {
        step(&mut straight);
        step(&mut halted);
    }
    assert_eq!(straight, halted);
}

#[test]
fn player_moves_within_the_edge_margins() {
    let mut g = game();
    g.player_spawn(0);
    g.player_movement(true, false, 16_667);
    assert_eq!(g.player.unwrap().position, Point::new(-8_333, -275_250));
    g.player_movement(false, true, 16_667);
    g.player_movement(false, true, 16_667);
    assert_eq!(g.player.unwrap().position.x, 8_333);
    g.player_movement(false, false, 16_667);
    assert_eq!(g.player.unwrap().position.x, 8_333);
    // Left wins when both keys are held.
    g.player_movement(true, true, 16_667);
    assert_eq!(g.player.unwrap().position.x, 0);
    for _ in 0..100 {
        g.player_movement(true, false, 16_667);
    }
    // The last step starts right of -338000 + 75000 and ends left of it.
    assert_eq!(g.player.unwrap().position.x, -266_656);
    for _ in 0..100 {
        g.player_movement(false, true, 16_667);
    }
    assert_eq!(g.player.unwrap().position.x, 266_656);
    assert!(g.is_valid());
}

#[test]
fn no_player_no_movement() {
    let mut g = game();
    g.player_movement(true, false, 16_667);
    g.player_fire(true, false, 16_667);
    assert_eq!(g.player, None);
    assert!(g.lasers.is_empty());
    assert!(g.effects.is_empty());
}

#[test]
fn player_fires_two_lasers_and_cools_down() {
    let mut g = game();
    g.player_spawn(0);
    g.player_fire(true, false, 100_000);
    assert_eq!(
        g.lasers,
        vec![
            bolt(31_000, -260_250, Faction::FromPlayer),
            bolt(-31_000, -260_250, Faction::FromPlayer),
        ]
    );
    assert_eq!(g.effects, vec![Effect::Play(Sound::Firing)]);
    assert!(!g.player.unwrap().ready_fire);
    assert_eq!(g.player.unwrap().fire_timer.elapsed, 100_000);
    // Held trigger: no shot until the cooldown has run.
    g.player_fire(true, false, 300_000);
    assert_eq!(g.lasers.len(), 2);
    assert!(!g.player.unwrap().ready_fire);
    g.player_fire(true, false, 100_000);
    assert_eq!(g.lasers.len(), 2);
    assert!(g.player.unwrap().ready_fire);
    g.player_fire(true, false, 16_667);
    assert_eq!(g.lasers.len(), 4);
    assert_eq!(g.effects.len(), 2);
    // Letting go of the trigger readies the ship at once.
    g.player_fire(false, true, 16_667);
    assert!(g.player.unwrap().ready_fire);
    g.player_fire(true, false, 16_667);
    assert_eq!(g.lasers.len(), 6);
    assert!(g.is_valid());
}

#[test]
fn player_lasers_fly_up_and_leave_above_the_field() {
    let mut g = game();
    g.lasers.push(bolt(0, 0, Faction::FromPlayer));
    g.lasers.push(bolt(0, 589_667, Faction::FromPlayer));
    g.lasers.push(bolt(0, 589_668, Faction::FromPlayer));
    g.lasers.push(bolt(7, 7, Faction::FromEnemy));
    g.laser_movement(16_667);
    assert_eq!(
        g.lasers,
        vec![
            bolt(0, 8_333, Faction::FromPlayer),
            bolt(0, 598_000, Faction::FromPlayer),
            bolt(7, 7, Faction::FromEnemy),
        ]
    );
}

#[test]
fn enemy_lasers_fly_down_and_leave_below_the_field() {
    let mut g = game();
    g.lasers.push(bolt(0, 0, Faction::FromEnemy));
    g.lasers.push(bolt(0, -340_667, Faction::FromEnemy));
    g.lasers.push(bolt(0, -340_668, Faction::FromEnemy));
    g.lasers.push(bolt(7, 7, Faction::FromPlayer));
    g.enemy_laser_movement(16_667);
    assert_eq!(
        g.lasers,
        vec![
            bolt(0, -8_333, Faction::FromEnemy),
            bolt(0, -349_000, Faction::FromEnemy),
            bolt(7, 7, Faction::FromPlayer),
        ]
    );
}

#[test]
fn enemies_fire_when_their_timer_finishes() {
    let mut g = game();
    let f = Formation {
        start: Point::new(676_000, 0),
        radius: Point::new(100_000, 100_000),
        offset: Point::new(0, 50_000),
        angle: 0,
        group_id: 1,
    };
    g.admit_enemy(f);
    g.admit_enemy(Formation { start: Point::new(-676_000, 9_000), ..f });
    g.enemies[1].fire_timer.elapsed = 400_000;
    g.enemy_fire(500_000);
    assert_eq!(
        g.lasers,
        vec![Laser {
            position: Point::new(-676_000, -6_000),
            size: Size::new(8_500, 27_500),
            speed: 500_000,
            faction: Faction::FromEnemy,
            paused: false,
        }]
    );
    assert_eq!(g.enemies[0].fire_timer.elapsed, 500_000);
    assert_eq!(g.enemies[1].fire_timer.elapsed, 0);
    g.enemy_fire(400_000);
    assert_eq!(g.lasers.len(), 2);
    assert_eq!(g.lasers[1].position, Point::new(676_000, -15_000));
    assert!(g.effects.is_empty());
    assert!(g.is_valid());
}

#[test]
fn enemies_move_toward_their_orbit() {
    let mut g = game();
    let f = Formation {
        start: Point::new(676_000, 50_000),
        radius: Point::new(100_000, 100_000),
        offset: Point::new(0, 50_000),
        angle: 0,
        group_id: 1,
    };
    g.admit_enemy(f);
    g.enemy_movement(&|_angle: i64| (1_000_000, 0), 16_667);
    // The destination is (100000, 50000), straight to the left.
    assert_eq!(g.enemies[0].position, Point::new(667_667, 50_000));
    assert_eq!(g.enemies[0].formation.angle, 0);
    assert_eq!(g.active_enemies, 1);
    assert_eq!(g.enemies[0], Enemy { position: Point::new(667_667, 50_000), ..Enemy::spawn(f, Size::new(46_500, 42_000), false) });
}

#[test]
fn effects_are_taken_once() {
    let mut g = game();
    g.player_spawn(0);
    g.player_fire(true, false, 1);
    let taken = g.take_effects();
    assert_eq!(taken, vec![Effect::Play(Sound::Firing)]);
    assert!(g.effects.is_empty());
    assert!(g.take_effects().is_empty());
    assert_eq!(g.lasers.len(), 2);
}

#[test]
fn save_outcome_shows_in_the_name_slot() {
    let mut g = game();
    g.player_state.score = 7;
    g.save_reported(true);
    assert_eq!(g.username, "score saved!");
    g.save_reported(false);
    assert_eq!(g.username, "something went wrong");
    assert_eq!(g.player_state.score, 7);
    assert_eq!(g.state, GameState::Active);
    assert!(g.is_valid());
}

#[test]
fn name_is_taken_only_once_game_is_over() {
    let mut g = game();
    g.enter_name("ada".to_string());
    assert_eq!(g.username, "<write down your name here>");
    g.state = GameState::GameOver;
    g.enter_name("ada".to_string());
    assert_eq!(g.username, "ada");
    let shot = g.snapshot();
    assert_eq!(shot.username, "ada");
    assert_eq!(shot.score, 0);
    assert_eq!(shot.lives, 3);
    assert_eq!(shot.state, GameState::GameOver);
}

#[test]
fn broken_contexts_are_told_apart() {
    let mut g = populated();
    assert!(g.is_valid());
    g.active_enemies = 1;
    assert!(!g.is_valid());
    g.active_enemies = 2;
    g.lasers[0].paused = true;
    assert!(!g.is_valid());
    g.lasers[0].paused = false;
    g.player_state.on = false;
    assert!(!g.is_valid());
    g.player_state.on = true;
    g.enemies[0].speed = -1;
    assert!(!g.is_valid());
    g.enemies[0].speed = 500_000;
    g.enemies[1].formation.radius.x = 0;
    assert!(!g.is_valid());
    g.enemies[1].formation.radius.x = 1;
    assert!(g.is_valid());
    g.state = GameState::GameOver;
    assert!(!g.is_valid());
}
