//! Collision resolution: the player's lasers against the enemies, the
//! enemies' lasers against the player, and the sweep once the game is over.

use vstd::prelude::*;
use crate::entities::{Enemy, Faction, Laser, Player};
use crate::game::{Effect, Game, GameModel, GameState, Sound, MAX_ENEMIES};
use crate::geometry::{boxes_overlap, overlaps};
use crate::player_state::PlayerState;

verus! {

/// A laser of the player overlaps the enemy.
pub open spec fn laser_hits_enemy(l: Laser, e: Enemy) -> bool {
    l.faction == Faction::FromPlayer && boxes_overlap(l.position, l.size, e.position, e.size)
}

/// A laser of an enemy overlaps the player.
pub open spec fn laser_hits_player(l: Laser, p: Player) -> bool {
    l.faction == Faction::FromEnemy && boxes_overlap(l.position, l.size, p.position, p.size)
}

/// Some laser of `lasers` hits the enemy.
pub open spec fn struck(e: Enemy, lasers: Seq<Laser>) -> bool {
    exists|j: int| 0 <= j < lasers.len() && laser_hits_enemy(#[trigger] lasers[j], e)
}

/// The laser hits some enemy of `enemies`.
pub open spec fn spent(l: Laser, enemies: Seq<Enemy>) -> bool {
    exists|i: int| 0 <= i < enemies.len() && laser_hits_enemy(l, #[trigger] enemies[i])
}

/// The effects of the kills among `enemies`, in the order of the enemies:
/// for each enemy struck, the kill sound, then an explosion where it was.
pub open spec fn kill_effects(enemies: Seq<Enemy>, lasers: Seq<Laser>) -> Seq<Effect>
    decreases enemies.len(),
{
    if enemies.len() == 0 {
        Seq::empty()
    } else {
        let earlier = kill_effects(enemies.drop_last(), lasers);
        if struck(enemies.last(), lasers) {
            earlier.push(Effect::Play(Sound::Kill)).push(Effect::Explosion(enemies.last().position))
        } else {
            earlier
        }
    }
}

/// `j` is the place of the first laser of `lasers` that hits the player.
pub open spec fn is_first_hit(lasers: Seq<Laser>, p: Player, j: int) -> bool {
    &&& 0 <= j < lasers.len()
    &&& laser_hits_player(lasers[j], p)
    &&& forall|k: int| 0 <= k < j ==> !laser_hits_player(#[trigger] lasers[k], p)
}

/// The place of the first laser that hits the player, if any does.
pub open spec fn first_hit(lasers: Seq<Laser>, p: Player) -> Option<int> {
    if exists|j: int| is_first_hit(lasers, p, j) {
        Some(choose|j: int| is_first_hit(lasers, p, j))
    } else {
        None
    }
}

impl GameModel {
    /// The context without enemies: what the sweep leaves.
    pub open spec fn swept(self) -> GameModel {
        GameModel { enemies: Seq::empty(), active_enemies: 0, ..self }
    }

    /// The context after the player's lasers were resolved against the enemies.
    ///
    /// Once the game is over every enemy is removed, and while the game
    /// is paused nothing is resolved. Otherwise each enemy that a laser hits
    /// is removed and credited once, however many lasers hit it, and each
    /// laser that hits an enemy is removed.
    pub open spec fn player_lasers_resolved(self) -> GameModel {
        if self.state == GameState::GameOver {
            self.swept()
        } else if self.state == GameState::Paused {
            self
        } else {
            let survivors = self.enemies.filter(|e: Enemy| !struck(e, self.lasers));
            let kills = self.enemies.len() - survivors.len();
            GameModel {
                enemies: survivors,
                lasers: self.lasers.filter(|l: Laser| !spent(l, self.enemies)),
                active_enemies: (self.active_enemies - kills) as u32,
                player_state: PlayerState {
                    score: (self.player_state.score + kills) as u32,
                    ..self.player_state
                },
                effects: self.effects + kill_effects(self.enemies, self.lasers),
                ..self
            }
        }
    }

    /// Whether the pass of the player's lasers credits kills: it does in
    /// an active game only.
    pub open spec fn credits_kills(self) -> bool {
        self.state == GameState::Active
    }

    /// The score has room for the kills of one pass, where the pass credits any.
    pub open spec fn score_has_room(self) -> bool {
        self.credits_kills() ==> self.player_state.score <= u32::MAX - MAX_ENEMIES
    }

    /// Whether the player can be hit in this tick: a ship is in play and the game is not paused.
    pub open spec fn player_exposed(self) -> bool {
        self.player_state.on && self.state != GameState::Paused
    }

    /// The context after the player was hit by the laser at the place `j`, at the time `now`.
    ///
    /// The ship and the laser are removed and one hit is applied to the
    /// player's record. If no life was left the game is over: the overlay
    /// is queued and the enemies are swept. Otherwise the death sound is
    /// queued. Either way an explosion follows where the ship was.
    pub open spec fn player_hit(self, j: int, now: u64) -> GameModel {
        let dead = self.player_state.lives == 0;
        let hit = GameModel {
            player: None,
            lasers: self.lasers.remove(j),
            player_state: self.player_state.after_shot(now),
            state: if dead {
                GameState::GameOver
            } else {
                self.state
            },
            effects: self.effects.push(
                if dead {
                    Effect::GameOverMarker
                } else {
                    Effect::Play(Sound::Dead)
                },
            ).push(Effect::Explosion(self.player.unwrap().position)),
            ..self
        };
        if dead {
            hit.swept()
        } else {
            hit
        }
    }

    /// The context after the enemies' lasers were resolved against the
    /// player, in a tick of length `delta` at the time `now`.
    ///
    /// While the player is exposed the invulnerability timer runs. Once
    /// it has finished, the first laser that hits the ship takes effect,
    /// and no other laser does in this tick.
    pub open spec fn enemy_lasers_resolved(self, now: u64, delta: u64) -> GameModel {
        if self.player_exposed() {
            let timer = self.player_state.invulnerability_timer.ticked(delta);
            let waited = GameModel {
                player_state: PlayerState { invulnerability_timer: timer, ..self.player_state },
                ..self
            };
            if timer.finished && self.player is Some {
                match first_hit(self.lasers, self.player.unwrap()) {
                    Some(j) => waited.player_hit(j, now),
                    None => waited,
                }
            } else {
                waited
            }
        } else {
            self
        }
    }
}

/// One of the first `n + 1` lasers hits the enemy exactly if one of the
/// first `n` does or the next one does.
proof fn lemma_struck_take_succ(e: Enemy, lasers: Seq<Laser>, n: int)
    requires
        0 <= n < lasers.len(),
    ensures
        struck(e, lasers.take(n + 1)) == (struck(e, lasers.take(n)) || laser_hits_enemy(
            lasers[n],
            e,
        )),
{
    let longer = lasers.take(n + 1);
    let shorter = lasers.take(n);
    if struck(e, longer) {
        let j = choose|j: int| 0 <= j < longer.len() && laser_hits_enemy(#[trigger] longer[j], e);
        if j < n {
            assert(laser_hits_enemy(shorter[j], e));
        }
    }
    if struck(e, shorter) {
        let j = choose|j: int| 0 <= j < shorter.len() && laser_hits_enemy(#[trigger] shorter[j], e);
        assert(laser_hits_enemy(longer[j], e));
    }
    if laser_hits_enemy(lasers[n], e) {
        assert(laser_hits_enemy(longer[n], e));
    }
}

/// The same for the enemies that a laser hits.
proof fn lemma_spent_take_succ(l: Laser, enemies: Seq<Enemy>, n: int)
    requires
        0 <= n < enemies.len(),
    ensures
        spent(l, enemies.take(n + 1)) == (spent(l, enemies.take(n)) || laser_hits_enemy(
            l,
            enemies[n],
        )),
{
    let longer = enemies.take(n + 1);
    let shorter = enemies.take(n);
    if spent(l, longer) {
        let i = choose|i: int| 0 <= i < longer.len() && laser_hits_enemy(l, #[trigger] longer[i]);
        if i < n {
            assert(laser_hits_enemy(l, shorter[i]));
        }
    }
    if spent(l, shorter) {
        let i = choose|i: int| 0 <= i < shorter.len() && laser_hits_enemy(l, #[trigger] shorter[i]);
        assert(laser_hits_enemy(l, longer[i]));
    }
    if laser_hits_enemy(l, enemies[n]) {
        assert(laser_hits_enemy(l, longer[n]));
    }
}

/// The effects of the kills among one more enemy.
proof fn lemma_kill_effects_take_succ(enemies: Seq<Enemy>, lasers: Seq<Laser>, n: int)
    requires
        0 <= n < enemies.len(),
    ensures
        kill_effects(enemies.take(n + 1), lasers) == if struck(enemies[n], lasers) {
            kill_effects(enemies.take(n), lasers).push(Effect::Play(Sound::Kill)).push(
                Effect::Explosion(enemies[n].position),
            )
        } else {
            kill_effects(enemies.take(n), lasers)
        },
{
    assert(enemies.take(n + 1).drop_last() =~= enemies.take(n));
}

/// A vector of `n` flags, all clear.
fn clear_flags(n: usize) -> (flags: Vec<bool>)
    ensures
        flags.len() == n,
        forall|k: int| 0 <= k < n ==> !flags@[k],
{
    let mut flags: Vec<bool> = Vec::new();
    let mut k: usize = 0;
    while k < n
        invariant
            k <= n,
            flags.len() == k,
            forall|m: int| 0 <= m < k ==> !flags@[m],
        decreases n - k,
    {
        flags.push(false);
        k = k + 1;
    }
    flags
}

impl Game {
    /// The sweep: removes every enemy from play and clears the counter.
    pub fn sweep_enemies(&mut self)
        requires
            old(self)@.valid(),
        ensures
            final(self)@ == old(self)@.swept(),
            final(self)@.valid(),
    {
        self.enemies = Vec::new();
        self.active_enemies = 0;
    }

    /// Tests every laser of the player against every enemy.
    ///
    /// The first result is the set of enemies destroyed in this pass, as
    /// one flag per enemy: an enemy enters it with the first laser that
    /// hits it and is not entered twice. The second result flags the
    /// lasers that hit an enemy.
    fn mark_hits(&self) -> (marks: (Vec<bool>, Vec<bool>))
        ensures
            marks.0.len() == self.enemies.len(),
            marks.1.len() == self.lasers.len(),
            forall|i: int|
                0 <= i < self.enemies.len() ==> marks.0@[i] == struck(
                    #[trigger] self.enemies@[i],
                    self.lasers@,
                ),
            forall|j: int|
                0 <= j < self.lasers.len() ==> marks.1@[j] == spent(
                    #[trigger] self.lasers@[j],
                    self.enemies@,
                ),
    {
        let n_enemies: usize = self.enemies.len();
        let n_lasers: usize = self.lasers.len();
        let mut destroyed: Vec<bool> = clear_flags(n_enemies);
        let mut consumed: Vec<bool> = clear_flags(n_lasers);
        let mut j: usize = 0;
        while j < n_lasers
            invariant
                j <= n_lasers,
                n_lasers == self.lasers.len(),
                n_enemies == self.enemies.len(),
                destroyed.len() == n_enemies,
                consumed.len() == n_lasers,
                forall|i: int|
                    0 <= i < n_enemies ==> destroyed@[i] == struck(
                        #[trigger] self.enemies@[i],
                        self.lasers@.take(j as int),
                    ),
                forall|k: int|
                    0 <= k < j ==> consumed@[k] == spent(#[trigger] self.lasers@[k], self.enemies@),
                forall|k: int| j <= k < n_lasers ==> !consumed@[k],
            decreases n_lasers - j,
        {
            let l: Laser = self.lasers[j];
            let mut i: usize = 0;
            while i < n_enemies
                invariant
                    i <= n_enemies,
                    j < n_lasers,
                    n_lasers == self.lasers.len(),
                    n_enemies == self.enemies.len(),
                    destroyed.len() == n_enemies,
                    consumed.len() == n_lasers,
                    l == self.lasers@[j as int],
                    forall|m: int|
                        0 <= m < i ==> destroyed@[m] == struck(
                            #[trigger] self.enemies@[m],
                            self.lasers@.take(j + 1),
                        ),
                    forall|m: int|
                        i <= m < n_enemies ==> destroyed@[m] == struck(
                            #[trigger] self.enemies@[m],
                            self.lasers@.take(j as int),
                        ),
                    forall|k: int|
                        0 <= k < j ==> consumed@[k] == spent(
                            #[trigger] self.lasers@[k],
                            self.enemies@,
                        ),
                    forall|k: int| j < k < n_lasers ==> !consumed@[k],
                    consumed@[j as int] == spent(l, self.enemies@.take(i as int)),
                decreases n_enemies - i,
            {
                let e: Enemy = self.enemies[i];
                proof {
                    lemma_struck_take_succ(e, self.lasers@, j as int);
                    lemma_spent_take_succ(l, self.enemies@, i as int);
                }
                let hit: bool = match l.faction {
                    Faction::FromPlayer => overlaps(l.position, l.size, e.position, e.size),
                    Faction::FromEnemy => false,
                };
                if hit {
                    if !destroyed[i] {
                        destroyed.set(i, true);
                    }
                    consumed.set(j, true);
                }
                i = i + 1;
            }
            proof {
                assert(self.enemies@.take(n_enemies as int) =~= self.enemies@);
            }
            j = j + 1;
        }
        proof {
            assert(self.lasers@.take(n_lasers as int) =~= self.lasers@);
        }
        (destroyed, consumed)
    }

    /// Decides `score_has_room`.
    pub fn score_room(&self) -> (ok: bool)
        ensures
            ok == self@.score_has_room(),
    {
        match self.state {
            GameState::Active => self.player_state.score <= u32::MAX - MAX_ENEMIES,
            _ => true,
        }
    }

    /// The collision system of the player's lasers and the enemies.
    ///
    /// In an active game the score must have room for the kills of one
    /// pass. A game that is paused or over credits none, whatever the score.
    pub fn player_laser_hit_enemy(&mut self)
        requires
            old(self)@.valid(),
            old(self)@.score_has_room(),
        ensures
            final(self)@ == old(self)@.player_lasers_resolved(),
            final(self)@.valid(),
    {
        if self.state.is_game_over() {
            self.sweep_enemies();
            return ;
        }
        if self.state.is_frozen() {
            return ;
        }
        let ghost before = self@;
        let ghost alive = |e: Enemy| !struck(e, before.lasers);
        let ghost live = |l: Laser| !spent(l, before.enemies);
        let (destroyed, consumed) = self.mark_hits();
        let n_enemies: usize = self.enemies.len();
        let mut survivors: Vec<Enemy> = Vec::new();
        let mut kills: u32 = 0;
        let mut i: usize = 0;
        while i < n_enemies
            invariant
                i <= n_enemies,
                n_enemies == before.enemies.len(),
                n_enemies <= MAX_ENEMIES,
                destroyed.len() == n_enemies,
                before.valid(),
                before.state != GameState::GameOver,
                alive == |e: Enemy| !struck(e, before.lasers),
                self@ == (GameModel { effects: self.effects@, ..before }),
                forall|m: int|
                    0 <= m < n_enemies ==> destroyed@[m] == struck(
                        #[trigger] before.enemies[m],
                        before.lasers,
                    ),
                survivors@ == before.enemies.take(i as int).filter(alive),
                kills + survivors.len() == i,
                self.effects@ == before.effects + kill_effects(
                    before.enemies.take(i as int),
                    before.lasers,
                ),
                forall|m: int|
                    0 <= m < survivors.len() ==> (#[trigger] survivors@[m]).valid()
                        && survivors@[m].paused == before.state.frozen(),
            decreases n_enemies - i,
        {
            let e: Enemy = self.enemies[i];
            proof {
                assert(e == before.enemies[i as int]);
                before.enemies.lemma_take_succ_push(i as int);
                before.enemies.take(i as int).lemma_filter_push(e, alive);
                lemma_kill_effects_take_succ(before.enemies, before.lasers, i as int);
            }
            if destroyed[i] {
                kills = kills + 1;
                self.effects.push(Effect::Play(Sound::Kill));
                self.effects.push(Effect::Explosion(e.position));
            } else {
                survivors.push(e);
            }
            i = i + 1;
        }
        let n_lasers: usize = self.lasers.len();
        let mut kept: Vec<Laser> = Vec::new();
        let mut j: usize = 0;
        while j < n_lasers
            invariant
                j <= n_lasers,
                n_lasers == before.lasers.len(),
                consumed.len() == n_lasers,
                before.valid(),
                before.state != GameState::GameOver,
                live == |l: Laser| !spent(l, before.enemies),
                self.lasers@ == before.lasers,
                forall|k: int|
                    0 <= k < n_lasers ==> consumed@[k] == spent(
                        #[trigger] before.lasers[k],
                        before.enemies,
                    ),
                kept@ == before.lasers.take(j as int).filter(live),
                forall|k: int|
                    0 <= k < kept.len() ==> (#[trigger] kept@[k]).valid() && kept@[k].paused
                        == before.state.frozen(),
            decreases n_lasers - j,
        {
            let l: Laser = self.lasers[j];
            proof {
                assert(l == before.lasers[j as int]);
                before.lasers.lemma_take_succ_push(j as int);
                before.lasers.take(j as int).lemma_filter_push(l, live);
            }
            if !consumed[j] {
                kept.push(l);
            }
            j = j + 1;
        }
        proof {
            assert(before.enemies.take(n_enemies as int) =~= before.enemies);
            assert(before.lasers.take(n_lasers as int) =~= before.lasers);
        }
        self.enemies = survivors;
        self.lasers = kept;
        self.active_enemies = self.active_enemies - kills;
        self.player_state.score = self.player_state.score + kills;
    }

    /// Finds the first laser of an enemy that overlaps the ship `p`.
    fn find_hit(&self, p: &Player) -> (found: Option<usize>)
        ensures
            match found {
                Some(j) => first_hit(self.lasers@, *p) == Some(j as int) && j < self.lasers.len(),
                None => first_hit(self.lasers@, *p) is None,
            },
    {
        let n: usize = self.lasers.len();
        let mut j: usize = 0;
        while j < n
            invariant
                j <= n,
                n == self.lasers.len(),
                forall|k: int| 0 <= k < j ==> !laser_hits_player(#[trigger] self.lasers@[k], *p),
            decreases n - j,
        {
            let l: Laser = self.lasers[j];
            let hit: bool = match l.faction {
                Faction::FromEnemy => overlaps(l.position, l.size, p.position, p.size),
                Faction::FromPlayer => false,
            };
            if hit {
                proof {
                    assert(is_first_hit(self.lasers@, *p, j as int));
                    let c = choose|c: int| is_first_hit(self.lasers@, *p, c);
                    assert(is_first_hit(self.lasers@, *p, c));
                    if c < j {
                        assert(!laser_hits_player(self.lasers@[c], *p));
                    }
                    if j < c {
                        assert(!laser_hits_player(self.lasers@[j as int], *p));
                    }
                }
                return Some(j);
            }
            j = j + 1;
        }
        proof {
            assert forall|c: int| !is_first_hit(self.lasers@, *p, c) by {
                if 0 <= c < n {
                    assert(!laser_hits_player(self.lasers@[c], *p));
                }
            }
        }
        None
    }

    /// The collision system of the enemies' lasers and the player, in a
    /// tick of length `delta` at the time `now`.
    pub fn enemy_laser_hit_player(&mut self, now: u64, delta: u64)
        requires
            old(self)@.valid(),
        ensures
            final(self)@ == old(self)@.enemy_lasers_resolved(now, delta),
            final(self)@.valid(),
    {
        if !self.player_state.on || self.state.is_frozen() {
            return ;
        }
        self.player_state.invulnerability_timer.tick(delta);
        if !self.player_state.invulnerability_timer.finished() {
            return ;
        }
        let p: Player = match self.player {
            Some(p) => p,
            None => {
                return ;
            },
        };
        match self.find_hit(&p) {
            Some(j) => {
                self.player = None;
                self.lasers.remove(j);
                if self.player_state.shot_or_dead(now) {
                    self.effects.push(Effect::GameOverMarker);
                    self.state = GameState::GameOver;
                    self.enemies = Vec::new();
                    self.active_enemies = 0;
                } else {
                    self.effects.push(Effect::Play(Sound::Dead));
                }
                self.effects.push(Effect::Explosion(p.position));
            },
            None => {},
        }
    }
}

} // verus!
