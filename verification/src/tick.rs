//! One simulation step: input, spawning, motion, collisions, in that order.

use vstd::prelude::*;
use crate::entities::Faction;
use crate::clock::Timer;
use crate::game::{Game, GameModel, GameState, Input, MAX_ENEMIES};
use crate::lifecycle::enemy_spawned;
use crate::motion::step_ok;
use crate::movement::enemies_moved;

verus! {

impl GameModel {
    /// The context after both spawn clocks ran for `delta`.
    pub open spec fn clocks_run(self, delta: u64) -> GameModel {
        GameModel {
            enemy_spawn_clock: self.enemy_spawn_clock.ticked(delta),
            player_spawn_clock: self.player_spawn_clock.ticked(delta),
            ..self
        }
    }

    /// Whether a tick of length `delta` asks the generator for a
    /// formation: the enemies' spawn clock comes round and an enemy is due.
    pub open spec fn needs_formation(self, delta: u64) -> bool {
        self.enemy_spawn_clock.ticked(delta).finished && self.wants_enemy()
    }

    /// Whether a tick with the keys `input`, of length `delta`, stays
    /// within the counters: the score has room where kills are credited,
    /// and the generator has an identifier left where a formation is asked for.
    pub open spec fn has_headroom(self, input: Input, delta: u64) -> bool {
        &&& self.pause_toggled(input.pause).score_has_room()
        &&& self.needs_formation(delta) ==> self.formation_maker.can_make()
    }

    /// The context after the player-spawn system ran, if its clock says that it is time.
    pub open spec fn player_spawned_on_time(self, now: u64) -> GameModel {
        if self.player_spawn_clock.finished {
            self.player_spawned(now)
        } else {
            self
        }
    }

    /// The context after the player and the lasers moved and the player
    /// and the enemies fired, in a tick of length `delta`.
    pub open spec fn flown_and_fired(self, input: Input, delta: u64) -> GameModel {
        self.player_moved(input.left, input.right, delta).lasers_moved(
            Faction::FromPlayer,
            delta,
        ).lasers_moved(Faction::FromEnemy, delta).player_fired(
            input.fire,
            input.fire_released,
            delta,
        ).enemies_fired(delta)
    }

    /// The context after both collision passes.
    pub open spec fn collided(self, now: u64, delta: u64) -> GameModel {
        self.player_lasers_resolved().enemy_lasers_resolved(now, delta)
    }
}

/// `post` is a possible outcome of the spawn phase on `pre`: the clocks
/// run, and each spawn system runs if its clock has finished, the enemies' first.
pub open spec fn spawn_phase<H: Fn(i64, i64) -> i64>(
    pre: GameModel,
    now: u64,
    delta: u64,
    heading: H,
    post: GameModel,
) -> bool {
    let clocked = pre.clocks_run(delta);
    if clocked.enemy_spawn_clock.finished {
        exists|mid: GameModel|
            {
                &&& enemy_spawned(clocked, heading, mid)
                &&& post == mid.player_spawned_on_time(now)
            }
    } else {
        post == clocked.player_spawned_on_time(now)
    }
}

/// `post` is a possible outcome of the motion phase on `pre`: the enemies
/// move, then the player and the lasers, then the player and the enemies fire.
pub open spec fn motion_phase<T: Fn(i64) -> (i64, i64)>(
    pre: GameModel,
    input: Input,
    delta: u64,
    trig: T,
    post: GameModel,
) -> bool {
    exists|mid: GameModel|
        {
            &&& enemies_moved(pre, trig, delta, mid)
            &&& post == mid.flown_and_fired(input, delta)
        }
}

/// `post` is a possible outcome of one tick on `pre`: the pause key is
/// resolved, then come the spawn phase, the motion phase and the collisions.
pub open spec fn ticked<H: Fn(i64, i64) -> i64, T: Fn(i64) -> (i64, i64)>(
    pre: GameModel,
    input: Input,
    now: u64,
    delta: u64,
    heading: H,
    trig: T,
    post: GameModel,
) -> bool {
    exists|spawned: GameModel, moved: GameModel|
        {
            &&& spawn_phase(pre.pause_toggled(input.pause), now, delta, heading, spawned)
            &&& motion_phase(spawned, input, delta, trig, moved)
            &&& post == moved.collided(now, delta)
        }
}

impl Game {
    /// Decides `needs_formation`.
    pub fn formation_due(&self, delta: u64) -> (due: bool)
        requires
            self.enemy_spawn_clock.valid(),
        ensures
            due == self@.needs_formation(delta),
    {
        let mut clock: Timer = self.enemy_spawn_clock;
        clock.tick(delta);
        clock.finished() && self.enemy_due()
    }

    /// Decides `has_headroom`.
    pub fn check_headroom(&self, input: &Input, delta: u64) -> (ok: bool)
        requires
            self.enemy_spawn_clock.valid(),
        ensures
            ok == self@.has_headroom(*input, delta),
    {
        let active: bool = match self.state {
            GameState::Active => !input.pause,
            GameState::Paused => input.pause,
            GameState::GameOver => false,
        };
        let score_fits: bool = !active || self.player_state.score <= u32::MAX - MAX_ENEMIES;
        let maker_fits: bool = !self.formation_due(delta) || self.formation_maker.is_ready();
        score_fits && maker_fits
    }

    /// The spawn phase of a tick of length `delta` at the time `now`.
    pub fn run_spawns<H: Fn(i64, i64) -> i64>(
        &mut self,
        now: u64,
        delta: u64,
        rng: &mut rand::rngs::StdRng,
        heading: &H,
    )
        requires
            old(self)@.valid(),
            old(self)@.needs_formation(delta) ==> old(self).formation_maker.can_make(),
            forall|rise: i64, run: i64| heading.requires((rise, run)),
        ensures
            spawn_phase(old(self)@, now, delta, *heading, final(self)@),
            final(self)@.valid(),
            final(self).player_state.score == old(self).player_state.score,
            final(self).state == old(self).state,
    {
        self.enemy_spawn_clock.tick(delta);
        self.player_spawn_clock.tick(delta);
        let ghost clocked = self@;
        if self.enemy_spawn_clock.finished() {
            self.enemy_spawn(rng, heading);
        }
        let ghost mid = self@;
        if self.player_spawn_clock.finished() {
            self.player_spawn(now);
        }
        proof {
            assert(self@ == mid.player_spawned_on_time(now));
            if clocked.enemy_spawn_clock.finished {
                assert(enemy_spawned(clocked, *heading, mid));
            }
        }
    }

    /// The motion phase of a tick of length `delta`.
    pub fn run_motion<T: Fn(i64) -> (i64, i64)>(&mut self, input: &Input, delta: u64, trig: &T)
        requires
            old(self)@.valid(),
            step_ok(delta),
            forall|angle: i64| trig.requires((angle,)),
        ensures
            motion_phase(old(self)@, *input, delta, *trig, final(self)@),
            final(self)@.valid(),
            final(self).player_state.score == old(self).player_state.score,
            final(self).state == old(self).state,
    {
        self.enemy_movement(trig, delta);
        let ghost mid = self@;
        self.player_movement(input.left, input.right, delta);
        self.laser_movement(delta);
        self.enemy_laser_movement(delta);
        self.player_fire(input.fire, input.fire_released, delta);
        self.enemy_fire(delta);
        proof {
            assert(enemies_moved(old(self)@, *trig, delta, mid));
            assert(self@ == mid.flown_and_fired(*input, delta));
        }
    }

    /// The collision phase of a tick of length `delta` at the time `now`.
    pub fn run_collisions(&mut self, now: u64, delta: u64)
        requires
            old(self)@.valid(),
            old(self)@.score_has_room(),
        ensures
            final(self)@ == old(self)@.collided(now, delta),
            final(self)@.valid(),
    {
        self.player_laser_hit_enemy();
        self.enemy_laser_hit_player(now, delta);
    }

    /// One simulation step of length `delta` microseconds at the time
    /// `now`, for the keys in `input`. Timers run and entities move for
    /// `delta`, which is at most `MAX_STEP`.
    ///
    /// `rng` and `heading` serve the formation generator, `trig` the
    /// motion of the enemies. The counters must have the headroom that
    /// this tick uses: see `has_headroom`. The counter of enemies equals the number of
    /// enemies in play after every tick, and is at most `MAX_ENEMIES`.
    pub fn tick<H: Fn(i64, i64) -> i64, T: Fn(i64) -> (i64, i64)>(
        &mut self,
        input: &Input,
        now: u64,
        delta: u64,
        rng: &mut rand::rngs::StdRng,
        heading: &H,
        trig: &T,
    )
        requires
            old(self)@.valid(),
            old(self)@.has_headroom(*input, delta),
            step_ok(delta),
            forall|rise: i64, run: i64| heading.requires((rise, run)),
            forall|angle: i64| trig.requires((angle,)),
        ensures
            ticked(old(self)@, *input, now, delta, *heading, *trig, final(self)@),
            final(self)@.valid(),
            final(self)@.active_enemies == final(self)@.enemies.len(),
            final(self)@.enemies.len() <= MAX_ENEMIES,
    {
        self.pause_game(input.pause);
        let ghost resolved = self@;
        self.run_spawns(now, delta, rng, heading);
        let ghost spawned = self@;
        self.run_motion(input, delta, trig);
        let ghost moved = self@;
        self.run_collisions(now, delta);
        proof {
            assert(resolved == old(self)@.pause_toggled(input.pause));
            assert(spawn_phase(resolved, now, delta, *heading, spawned));
            assert(motion_phase(spawned, *input, delta, *trig, moved));
        }
    }
}

} // verus!
