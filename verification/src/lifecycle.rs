//! Bringing entities into play: enemies one at a time up to the cap, and
//! the player's ship after the respawn delay.

use vstd::prelude::*;
use crate::entities::{Enemy, Player};
use crate::formation::{makes, Formation, FormationMaker};
use crate::game::{Game, GameModel, GameState, MAX_ENEMIES};

verus! {

/// `post` is a possible outcome of the enemy-spawn system on `pre`.
///
/// If an enemy is due, the generator serves one request, as `makes` says,
/// and an enemy enters play on the formation. Otherwise nothing changes.
pub open spec fn enemy_spawned<H: Fn(i64, i64) -> i64>(
    pre: GameModel,
    heading: H,
    post: GameModel,
) -> bool {
    if pre.wants_enemy() {
        exists|f: Formation, maker: FormationMaker|
            {
                &&& makes(pre.formation_maker, pre.win, heading, f, maker)
                &&& post == (GameModel { formation_maker: maker, ..pre }).with_enemy(f)
            }
    } else {
        post == pre
    }
}

impl GameModel {
    /// Whether an enemy is due: the game is not over and the cap is not reached.
    pub open spec fn wants_enemy(self) -> bool {
        self.state != GameState::GameOver && self.active_enemies < MAX_ENEMIES
    }

    /// The context after an enemy entered play on the formation `f`: it
    /// stands at the start of `f`, carries the pause flag of the state, and is counted.
    pub open spec fn with_enemy(self, f: Formation) -> GameModel {
        GameModel {
            enemies: self.enemies.push(
                Enemy::fresh(f, self.sprites.enemy.spec_halved(), self.state.frozen()),
            ),
            active_enemies: (self.active_enemies + 1) as u32,
            ..self
        }
    }

    /// Whether the player's ship is due at the time `now`.
    pub open spec fn wants_player(self, now: u64) -> bool {
        self.state != GameState::GameOver && self.player_state.may_spawn(now)
    }

    /// The context after the player-spawn system ran at the time `now`.
    pub open spec fn player_spawned(self, now: u64) -> GameModel {
        if self.wants_player(now) {
            GameModel {
                player: Some(
                    Player::fresh(self.win, self.sprites.player.spec_halved(), self.state.frozen()),
                ),
                player_state: self.player_state.after_spawn(),
                ..self
            }
        } else {
            self
        }
    }
}

impl Game {
    /// Decides `wants_enemy`.
    pub fn enemy_due(&self) -> (due: bool)
        ensures
            due == self@.wants_enemy(),
    {
        !self.state.is_game_over() && self.active_enemies < MAX_ENEMIES
    }

    /// Brings an enemy into play on the formation `f`.
    pub fn admit_enemy(&mut self, f: Formation)
        requires
            old(self)@.valid(),
            old(self)@.wants_enemy(),
            f.valid(),
        ensures
            final(self)@ == old(self)@.with_enemy(f),
            final(self)@.valid(),
    {
        let enemy = Enemy::spawn(f, self.sprites.enemy.halved(), self.state.is_frozen());
        self.enemies.push(enemy);
        self.active_enemies = self.active_enemies + 1;
    }

    /// The enemy-spawn system, to be run once per spawn period.
    ///
    /// If an enemy is due, a formation is requested from the generator and
    /// an enemy enters play on it. Otherwise nothing changes.
    pub fn enemy_spawn<H: Fn(i64, i64) -> i64>(
        &mut self,
        rng: &mut rand::rngs::StdRng,
        heading: &H,
    )
        requires
            old(self)@.valid(),
            old(self)@.wants_enemy() ==> old(self).formation_maker.can_make(),
            forall|rise: i64, run: i64| heading.requires((rise, run)),
        ensures
            enemy_spawned(old(self)@, *heading, final(self)@),
            final(self)@.valid(),
    {
        if self.enemy_due() {
            let ghost before = self@;
            let f = self.formation_maker.make(&self.win, rng, heading);
            let ghost maker = self.formation_maker;
            self.admit_enemy(f);
            assert(makes(before.formation_maker, before.win, *heading, f, maker));
            assert(self@ == (GameModel { formation_maker: maker, ..before }).with_enemy(f));
        }
    }

    /// The player-spawn system, to be run once per spawn period.
    ///
    /// A ship enters play if the game is not over, none is in play, and
    /// either no shot is on record or more than the respawn delay has
    /// passed since the last one. Its invulnerability window starts.
    pub fn player_spawn(&mut self, now: u64)
        requires
            old(self)@.valid(),
        ensures
            final(self)@ == old(self)@.player_spawned(now),
            final(self)@.valid(),
    {
        if !self.state.is_game_over() && self.player_state.can_spawn(now) {
            self.player = Some(
                Player::spawn(&self.win, self.sprites.player.halved(), self.state.is_frozen()),
            );
            self.player_state.spawned();
        }
    }
}

} // verus!
