use rand::rngs::StdRng;
use rand::SeedableRng;
use rust_invaders::entities::Faction;
use rust_invaders::formation::WinSize;
use rust_invaders::game::{Game, GameState, Input, Sprites, MAX_ENEMIES};
use rust_invaders::geometry::Size;

fn props() -> Sprites {
    Sprites {
        player: Size::new(144_000, 75_000),
        enemy: Size::new(93_000, 84_000),
        player_laser: Size::new(9_000, 54_000),
        enemy_laser: Size::new(17_000, 55_000),
    }
}

fn arc(rise: i64, run: i64) -> i64 {
    ((rise as f64).atan2(run as f64) * 1e6).round() as i64
}

fn unit(angle: i64) -> (i64, i64) {
    let a = angle as f64 / 1e6;
    ((a.cos() * 1e6).round() as i64, (a.sin() * 1e6).round() as i64)
}

fn idle() -> Input {
    Input { pause: false, left: false, right: false, fire: false, fire_released: false }
}

#[test]
fn enemy_count_matches_enemies_on_every_tick() {
    let mut g = Game::new(WinSize::new(676_000, 598_000).unwrap(), props());
    let mut rng = StdRng::seed_from_u64(5);
    let mut now = 0u64;
    let mut seen_full = false;
    let mut last_score = 0;
    let mut last_lives = 3;
    for n in 0..3_000u32 {
        now += 16_667;
        let input = Input {
            pause: n % 701 == 700,
            left: (n / 120) % 2 == 0,
            right: (n / 120) % 2 == 1,
            fire: n % 3 != 0,
            fire_released: n % 3 == 0,
        };
        assert!(g.check_headroom(&input, 16_667));
        g.tick(&input, now, 16_667, &mut rng, &arc, &unit);
        assert!(g.is_valid());
        assert_eq!(g.active_enemies as usize, g.enemies.len());
        assert!(g.active_enemies <= MAX_ENEMIES);
        seen_full = seen_full || g.active_enemies == MAX_ENEMIES;
        assert!(g.player_state.score >= last_score);
        assert!(g.player_state.lives <= last_lives);
        last_score = g.player_state.score;
        last_lives = g.player_state.lives;
        if g.state == GameState::GameOver {
            assert_eq!(g.active_enemies, 0);
            assert_eq!(g.player, None);
        }
        g.take_effects();
    }
    assert!(seen_full);
}

#[test]
fn spawn_clocks_throttle_the_spawns() {
    let mut g = Game::new(WinSize::new(676_000, 598_000).unwrap(), props());
    let mut rng = StdRng::seed_from_u64(5);
    let mut now = 0u64;
    // 29 ticks are less than half a second: nothing has entered play.
    for _ in 0..29 {
        now += 16_667;
        g.tick(&idle(), now, 16_667, &mut rng, &arc, &unit);
    }
    assert_eq!(g.player, None);
    assert!(g.enemies.is_empty());
    now += 16_667;
    g.tick(&idle(), now, 16_667, &mut rng, &arc, &unit);
    assert!(g.player.is_some());
    assert!(g.enemies.is_empty());
    for _ in 0..29 {
        now += 16_667;
        g.tick(&idle(), now, 16_667, &mut rng, &arc, &unit);
    }
    assert!(g.enemies.is_empty());
    now += 16_667;
    g.tick(&idle(), now, 16_667, &mut rng, &arc, &unit);
    assert_eq!(g.enemies.len(), 1);
    assert_eq!(g.active_enemies, 1);
}

#[test]
fn paused_tick_moves_nothing() {
    let mut g = Game::new(WinSize::new(676_000, 598_000).unwrap(), props());
    let mut rng = StdRng::seed_from_u64(8);
    let mut now = 0u64;
    let keys = Input { pause: false, left: true, right: false, fire: true, fire_released: false };
    for _ in 0..100 {
        now += 16_667;
        g.tick(&keys, now, 16_667, &mut rng, &arc, &unit);
    }
    assert!(g.player.is_some());
    assert!(!g.enemies.is_empty());
    assert!(g.lasers.iter().any(|l| l.faction == Faction::FromPlayer));
    now += 16_667;
    g.tick(&Input { pause: true, ..keys }, now, 16_667, &mut rng, &arc, &unit);
    assert_eq!(g.state, GameState::Paused);
    let player = g.player.map(|p| Some((p.position, p.fire_timer, p.ready_fire)));
    let lasers: Vec<_> = g.lasers.iter().map(|l| l.position).collect();
    let enemies: Vec<_> = g.enemies.iter().map(|e| (e.position, e.formation, e.fire_timer)).collect();
    let window = g.player_state.invulnerability_timer;
    // Three more ticks under pause; the spawn clocks do not come round in them.
    for _ in 0..3 {
        now += 16_667;
        g.tick(&keys, now, 16_667, &mut rng, &arc, &unit);
        assert_eq!(g.state, GameState::Paused);
    }
    assert_eq!(g.player.map(|p| Some((p.position, p.fire_timer, p.ready_fire))), player);
    assert_eq!(g.lasers.iter().map(|l| l.position).collect::<Vec<_>>(), lasers);
    assert_eq!(
        g.enemies.iter().map(|e| (e.position, e.formation, e.fire_timer)).collect::<Vec<_>>(),
        enemies
    );
    assert_eq!(g.player_state.invulnerability_timer, window);
}

#[test]
fn score_needs_room_only_where_kills_are_credited() {
    let mut g = Game::new(WinSize::new(676_000, 598_000).unwrap(), props());
    let press = Input { pause: true, ..idle() };
    g.player_state.score = u32::MAX - 4;
    assert!(g.score_room());
    assert!(g.check_headroom(&idle(), 16_667));
    g.player_state.score = u32::MAX - 3;
    assert!(!g.score_room());
    assert!(!g.check_headroom(&idle(), 16_667));
    // The tick that pauses the game credits no kill.
    assert!(g.check_headroom(&press, 16_667));
    g.state = GameState::Paused;
    assert!(g.score_room());
    assert!(g.check_headroom(&idle(), 16_667));
    assert!(!g.check_headroom(&press, 16_667));
    g.state = GameState::GameOver;
    assert!(g.score_room());
    assert!(g.check_headroom(&idle(), 16_667));
    assert!(g.check_headroom(&press, 16_667));
}

#[test]
fn generator_needs_room_only_where_a_formation_is_asked_for() {
    let mut g = Game::new(WinSize::new(676_000, 598_000).unwrap(), props());
    g.formation_maker.group_seq = u32::MAX;
    // The spawn clock does not come round in this tick.
    assert!(!g.formation_due(16_667));
    assert!(g.check_headroom(&idle(), 16_667));
    // In this one it does, and an enemy is due.
    assert!(g.formation_due(1_000_000));
    assert!(!g.check_headroom(&idle(), 1_000_000));
    g.formation_maker.group_seq = u32::MAX - 1;
    assert!(g.check_headroom(&idle(), 1_000_000));
    // No enemy is due once the game is over.
    g.formation_maker.group_seq = u32::MAX;
    g.state = GameState::GameOver;
    assert!(!g.formation_due(1_000_000));
    assert!(g.check_headroom(&idle(), 1_000_000));
}

#[test]
fn full_score_does_not_stop_a_game_that_is_over_or_paused() {
    let mut rng = StdRng::seed_from_u64(5);
    let mut g = Game::new(WinSize::new(676_000, 598_000).unwrap(), props());
    g.player_state.score = u32::MAX;
    g.formation_maker.group_seq = u32::MAX;
    g.state = GameState::GameOver;
    assert!(g.is_valid());
    let mut now = 0u64;
    for _ in 0..120 {
        now += 16_667;
        assert!(g.check_headroom(&idle(), 16_667));
        g.tick(&idle(), now, 16_667, &mut rng, &arc, &unit);
        assert!(g.is_valid());
    }
    assert_eq!(g.player_state.score, u32::MAX);
    assert_eq!(g.state, GameState::GameOver);
    assert_eq!(g.active_enemies, 0);
    assert_eq!(g.formation_maker.group_seq, u32::MAX);
}
