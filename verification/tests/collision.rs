use rust_invaders::clock::Timer;
use rust_invaders::entities::{Enemy, Faction, Laser, Player};
use rust_invaders::formation::{Formation, WinSize};
use rust_invaders::game::{Effect, Game, GameState, Sound, Sprites};
use rust_invaders::geometry::{Point, Size};

fn sprites() -> Sprites {
    Sprites {
        player: Size::new(144_000, 75_000),
        enemy: Size::new(93_000, 84_000),
        player_laser: Size::new(9_000, 54_000),
        enemy_laser: Size::new(17_000, 55_000),
    }
}

fn new_game() -> Game {
    Game::new(WinSize::new(676_000, 598_000).unwrap(), sprites())
}

fn enemy_at(x: i64, y: i64) -> Enemy {
    let f = Formation {
        start: Point::new(676_000, 0),
        radius: Point::new(100_000, 100_000),
        offset: Point::new(0, 50_000),
        angle: 0,
        group_id: 1,
    };
    let mut e = Enemy::spawn(f, Size::new(46_500, 42_000), false);
    e.position = Point::new(x, y);
    e
}

fn laser_at(x: i64, y: i64, faction: Faction) -> Laser {
    Laser {
        position: Point::new(x, y),
        size: Size::new(9_000, 54_000),
        speed: 500_000,
        faction,
        paused: false,
    }
}

fn put_enemies(game: &mut Game, enemies: Vec<Enemy>) {
    game.active_enemies = enemies.len() as u32;
    game.enemies = enemies;
}

fn put_player(game: &mut Game, x: i64, y: i64) -> Player {
    game.player_spawn(0);
    let mut p = game.player.unwrap();
    p.position = Point::new(x, y);
    game.player = Some(p);
    p
}

#[test]
fn laser_on_enemy_destroys_both() {
    let mut game = new_game();
    put_enemies(&mut game, vec![enemy_at(10_000, 20_000), enemy_at(-200_000, 100_000)]);
    game.lasers.push(laser_at(10_000, 20_000, Faction::FromPlayer));
    game.player_state.score = 5;
    assert!(game.is_valid());
    game.player_laser_hit_enemy();
    assert_eq!(game.enemies, vec![enemy_at(-200_000, 100_000)]);
    assert!(game.lasers.is_empty());
    assert_eq!(game.player_state.score, 6);
    assert_eq!(game.active_enemies, 1);
    assert_eq!(
        game.effects,
        vec![Effect::Play(Sound::Kill), Effect::Explosion(Point::new(10_000, 20_000))]
    );
    assert!(game.is_valid());
}

#[test]
fn two_lasers_on_one_enemy_credit_one_kill() {
    let mut game = new_game();
    put_enemies(&mut game, vec![enemy_at(0, 0)]);
    game.lasers.push(laser_at(-20_000, 0, Faction::FromPlayer));
    game.lasers.push(laser_at(20_000, 10_000, Faction::FromPlayer));
    game.player_laser_hit_enemy();
    assert!(game.enemies.is_empty());
    assert!(game.lasers.is_empty());
    assert_eq!(game.player_state.score, 1);
    assert_eq!(game.active_enemies, 0);
    assert_eq!(
        game.effects,
        vec![Effect::Play(Sound::Kill), Effect::Explosion(Point::new(0, 0))]
    );
}

#[test]
fn one_laser_on_two_enemies_destroys_both() {
    let mut game = new_game();
    put_enemies(&mut game, vec![enemy_at(-20_000, 0), enemy_at(20_000, 0), enemy_at(300_000, 0)]);
    game.lasers.push(laser_at(0, 0, Faction::FromPlayer));
    game.player_laser_hit_enemy();
    assert_eq!(game.enemies, vec![enemy_at(300_000, 0)]);
    assert!(game.lasers.is_empty());
    assert_eq!(game.player_state.score, 2);
    assert_eq!(game.active_enemies, 1);
    assert_eq!(
        game.effects,
        vec![
            Effect::Play(Sound::Kill),
            Effect::Explosion(Point::new(-20_000, 0)),
            Effect::Play(Sound::Kill),
            Effect::Explosion(Point::new(20_000, 0)),
        ]
    );
}

#[test]
fn lasers_that_miss_fly_on() {
    let mut game = new_game();
    put_enemies(&mut game, vec![enemy_at(0, 0)]);
    // Box edges meet at 27750 horizontally and 48000 vertically.
    game.lasers.push(laser_at(27_750, 0, Faction::FromPlayer));
    game.lasers.push(laser_at(0, 48_000, Faction::FromPlayer));
    game.player_laser_hit_enemy();
    assert_eq!(game.enemies.len(), 1);
    assert_eq!(game.lasers.len(), 2);
    assert_eq!(game.player_state.score, 0);
    assert!(game.effects.is_empty());
    game.lasers[0].position.x = 27_749;
    game.player_laser_hit_enemy();
    assert_eq!(game.enemies.len(), 0);
    assert_eq!(game.lasers, vec![laser_at(0, 48_000, Faction::FromPlayer)]);
    assert_eq!(game.player_state.score, 1);
}

#[test]
fn enemy_lasers_do_not_harm_enemies() {
    let mut game = new_game();
    put_enemies(&mut game, vec![enemy_at(0, 0)]);
    game.lasers.push(laser_at(0, 0, Faction::FromEnemy));
    game.player_laser_hit_enemy();
    assert_eq!(game.enemies.len(), 1);
    assert_eq!(game.lasers.len(), 1);
    assert_eq!(game.player_state.score, 0);
}

#[test]
fn sweep_clears_enemies_once_game_is_over() {
    let mut game = new_game();
    put_enemies(&mut game, vec![enemy_at(0, 0), enemy_at(50_000, 0), enemy_at(100_000, 0)]);
    game.lasers.push(laser_at(0, 0, Faction::FromPlayer));
    game.state = GameState::GameOver;
    game.player_laser_hit_enemy();
    assert!(game.enemies.is_empty());
    assert_eq!(game.active_enemies, 0);
    // A sweep is no kill.
    assert_eq!(game.player_state.score, 0);
    assert_eq!(game.lasers.len(), 1);
    assert!(game.effects.is_empty());
    game.player_laser_hit_enemy();
    assert!(game.enemies.is_empty());
    assert_eq!(game.active_enemies, 0);
}

#[test]
fn invulnerable_player_is_not_hit() {
    let mut game = new_game();
    let p = put_player(&mut game, 0, -275_250);
    game.lasers.push(laser_at(0, -275_250, Faction::FromEnemy));
    assert!(game.is_valid());
    game.enemy_laser_hit_player(10, 1_000_000);
    assert_eq!(game.player, Some(p));
    assert_eq!(game.lasers.len(), 1);
    assert_eq!(game.player_state.lives, 3);
    game.enemy_laser_hit_player(20, 499_999);
    assert_eq!(game.player, Some(p));
    assert_eq!(game.player_state.invulnerability_timer.elapsed, 1_499_999);
    // The window closes on this tick, and the laser takes effect.
    game.enemy_laser_hit_player(30, 1);
    assert_eq!(game.player, None);
    assert!(game.lasers.is_empty());
    assert_eq!(game.player_state.lives, 2);
    assert_eq!(game.player_state.last_shot_time, Some(30));
    assert!(!game.player_state.on);
    assert_eq!(game.player_state.invulnerability_timer, Timer::new(0, false));
    assert_eq!(game.state, GameState::Active);
    assert_eq!(
        game.effects,
        vec![Effect::Play(Sound::Dead), Effect::Explosion(Point::new(0, -275_250))]
    );
    assert!(game.is_valid());
}

#[test]
fn first_laser_in_order_is_the_one_consumed() {
    let mut game = new_game();
    put_player(&mut game, 0, 0);
    game.lasers.push(laser_at(0, 0, Faction::FromPlayer));
    game.lasers.push(laser_at(500_000, 0, Faction::FromEnemy));
    game.lasers.push(laser_at(10_000, 0, Faction::FromEnemy));
    game.lasers.push(laser_at(-10_000, 0, Faction::FromEnemy));
    game.enemy_laser_hit_player(7, 1_500_000);
    assert_eq!(game.player, None);
    assert_eq!(
        game.lasers,
        vec![
            laser_at(0, 0, Faction::FromPlayer),
            laser_at(500_000, 0, Faction::FromEnemy),
            laser_at(-10_000, 0, Faction::FromEnemy),
        ]
    );
    // One hit only, though two lasers overlap the ship.
    assert_eq!(game.player_state.lives, 2);
    assert_eq!(game.effects.len(), 2);
    // No ship, no further hit.
    game.enemy_laser_hit_player(8, 1_500_000);
    assert_eq!(game.lasers.len(), 3);
    assert_eq!(game.player_state.lives, 2);
}

#[test]
fn paused_player_is_not_hit_and_its_window_does_not_run() {
    let mut game = new_game();
    put_player(&mut game, 0, 0);
    game.enemy_laser_hit_player(1, 1_500_000);
    assert!(game.player_state.invulnerability_timer.finished());
    game.pause_game(true);
    game.lasers.push(Laser { paused: true, ..laser_at(0, 0, Faction::FromEnemy) });
    let before = game.player_state;
    game.enemy_laser_hit_player(2, 1_000_000);
    assert!(game.player.is_some());
    assert_eq!(game.player_state, before);
    assert_eq!(game.lasers.len(), 1);
}

#[test]
fn hit_without_lives_ends_the_game_once() {
    let mut game = new_game();
    put_enemies(&mut game, vec![enemy_at(300_000, 0), enemy_at(-300_000, 0)]);
    put_player(&mut game, 0, 0);
    game.player_state.lives = 1;
    game.lasers.push(laser_at(0, 0, Faction::FromEnemy));
    game.enemy_laser_hit_player(100, 1_500_000);
    // The last life is taken; the game goes on.
    assert_eq!(game.player_state.lives, 0);
    assert_eq!(game.state, GameState::Active);
    assert_eq!(game.active_enemies, 2);
    assert_eq!(game.effects.len(), 2);

    game.player_spawn(2_000_101);
    assert!(game.player.is_some());
    let mut p = game.player.unwrap();
    p.position = Point::new(0, 0);
    game.player = Some(p);
    game.lasers.push(laser_at(0, 0, Faction::FromEnemy));
    game.lasers.push(laser_at(0, 0, Faction::FromEnemy));
    game.enemy_laser_hit_player(2_000_200, 1_500_000);
    assert_eq!(game.state, GameState::GameOver);
    assert_eq!(game.player_state.lives, 0);
    assert_eq!(game.player, None);
    assert_eq!(game.lasers.len(), 1);
    // The count of enemies drops to zero with the transition.
    assert_eq!(game.active_enemies, 0);
    assert!(game.enemies.is_empty());
    let overlays = game.effects.iter().filter(|e| **e == Effect::GameOverMarker).count();
    assert_eq!(overlays, 1);
    assert_eq!(
        game.effects[2..],
        [Effect::GameOverMarker, Effect::Explosion(Point::new(0, 0))]
    );
    assert!(game.is_valid());

    // Nothing re-enters the state: no ship comes back, no hit lands.
    game.player_spawn(9_000_000);
    assert_eq!(game.player, None);
    game.enemy_laser_hit_player(9_000_001, 1_500_000);
    let overlays = game.effects.iter().filter(|e| **e == Effect::GameOverMarker).count();
    assert_eq!(overlays, 1);
    assert_eq!(game.state, GameState::GameOver);
}

#[test]
fn game_over_forces_count_to_zero_on_next_pass() {
    let mut game = new_game();
    game.state = GameState::GameOver;
    put_enemies(&mut game, vec![enemy_at(0, 0), enemy_at(1, 1), enemy_at(2, 2), enemy_at(3, 3)]);
    assert_eq!(game.active_enemies, 4);
    game.player_laser_hit_enemy();
    assert_eq!(game.active_enemies, 0);
    assert!(game.enemies.is_empty());
}

#[test]
fn sweep_runs_with_a_full_score() {
    let mut game = new_game();
    game.state = GameState::GameOver;
    game.player_state.score = u32::MAX;
    put_enemies(&mut game, vec![enemy_at(0, 0)]);
    game.lasers.push(laser_at(0, 0, Faction::FromPlayer));
    assert!(game.is_valid());
    assert!(game.score_room());
    game.player_laser_hit_enemy();
    assert_eq!(game.active_enemies, 0);
    assert!(game.enemies.is_empty());
    assert_eq!(game.player_state.score, u32::MAX);
    assert_eq!(game.lasers.len(), 1);
    let swept = game.clone();
    game.player_laser_hit_enemy();
    assert_eq!(game, swept);
}

#[test]
fn paused_pass_resolves_nothing_whatever_the_score() {
    let mut game = new_game();
    put_enemies(&mut game, vec![enemy_at(0, 0)]);
    game.lasers.push(laser_at(0, 0, Faction::FromPlayer));
    game.pause_game(true);
    game.player_state.score = u32::MAX;
    assert!(game.score_room());
    let before = game.clone();
    game.player_laser_hit_enemy();
    assert_eq!(game, before);
}
