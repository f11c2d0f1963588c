//! The systems that move and fire: enemies along their orbits, the player
//! under the keys, lasers across the playfield.

use vstd::prelude::*;
use crate::entities::{Enemy, Faction, Laser, Player, PLAYER_LASER_OFFSET};
use crate::formation::WinSize;
use crate::game::{Effect, Game, GameModel, Sound};
use crate::geometry::Size;
use crate::motion::step_ok;

verus! {

/// What becomes of a laser in the movement system of `faction`: a laser of
/// the other faction stays as it is, one of `faction` flies on, and is
/// dropped if that takes it out of the playfield.
pub open spec fn laser_after_flight(
    l: Laser,
    faction: Faction,
    win: WinSize,
    step: u64,
) -> Option<Laser> {
    if l.faction != faction {
        Some(l)
    } else if l.flown(step).gone(win) {
        None
    } else {
        Some(l.flown(step))
    }
}

/// The laser that an enemy adds to play in a step of length `delta`, if any.
pub open spec fn enemy_shot(e: Enemy, delta: u64, size: Size) -> Option<Laser> {
    if e.fires(delta) {
        Some(e.shot(size))
    } else {
        None
    }
}

/// `after` is a possible outcome of one step of the enemy `before`: a
/// paused enemy stays, and any other advances by the motion law with a
/// cosine and a sine that `trig` returns for the angle that the enemy wants.
pub open spec fn enemy_moved<T: Fn(i64) -> (i64, i64)>(
    before: Enemy,
    trig: T,
    step: u64,
    after: Enemy,
) -> bool {
    if before.paused {
        after == before
    } else {
        exists|cos: i64, sin: i64|
            {
                &&& trig.ensures((before.wanted_angle(step) as i64,), (cos, sin))
                &&& after == before.advanced(cos, sin, step)
            }
    }
}

/// `post` is a possible outcome of the movement system of the enemies on
/// `pre`: nothing but the enemies changes, and each enemy has moved as
/// `enemy_moved` says.
pub open spec fn enemies_moved<T: Fn(i64) -> (i64, i64)>(
    pre: GameModel,
    trig: T,
    step: u64,
    post: GameModel,
) -> bool {
    &&& post == (GameModel { enemies: post.enemies, ..pre })
    &&& post.enemies.len() == pre.enemies.len()
    &&& forall|i: int|
        0 <= i < pre.enemies.len() ==> enemy_moved(
            pre.enemies[i],
            trig,
            step,
            #[trigger] post.enemies[i],
        )
}

impl GameModel {
    /// The lasers after the movement system of `faction`.
    pub open spec fn lasers_flown(self, faction: Faction, step: u64) -> Seq<Laser> {
        self.lasers.filter_map(|l: Laser| laser_after_flight(l, faction, self.win, step))
    }

    /// The context after the movement system of the lasers of `faction`.
    pub open spec fn lasers_moved(self, faction: Faction, step: u64) -> GameModel {
        GameModel { lasers: self.lasers_flown(faction, step), ..self }
    }

    /// The context after the player moved for the keys held.
    pub open spec fn player_moved(self, left: bool, right: bool, step: u64) -> GameModel {
        match self.player {
            Some(p) => GameModel { player: Some(p.steered(left, right, self.win, step)), ..self },
            None => self,
        }
    }

    /// The context after the firing rule of the player.
    ///
    /// A player that fires sends two lasers up, one to each side, and the
    /// firing sound is queued.
    pub open spec fn player_fired(self, trigger: bool, released: bool, delta: u64) -> GameModel {
        match self.player {
            Some(p) => {
                let size = self.sprites.player_laser;
                GameModel {
                    player: Some(p.rearmed(trigger, released, delta)),
                    lasers: if p.shoots(trigger) {
                        self.lasers.push(p.shot(PLAYER_LASER_OFFSET as int, size)).push(
                            p.shot(-PLAYER_LASER_OFFSET as int, size),
                        )
                    } else {
                        self.lasers
                    },
                    effects: if p.shoots(trigger) {
                        self.effects.push(Effect::Play(Sound::Firing))
                    } else {
                        self.effects
                    },
                    ..self
                }
            },
            None => self,
        }
    }

    /// The context after every enemy ran its fire timer for `delta`: the
    /// lasers of the enemies that fired join the lasers in play, in the
    /// order of the enemies.
    pub open spec fn enemies_fired(self, delta: u64) -> GameModel {
        let size = self.sprites.enemy_laser.spec_halved();
        GameModel {
            enemies: self.enemies.map_values(|e: Enemy| e.reloaded(delta)),
            lasers: self.lasers + self.enemies.filter_map(|e: Enemy| enemy_shot(e, delta, size)),
            ..self
        }
    }
}

impl Game {
    /// Moves the lasers of `faction` by one step and drops those that leave the playfield.
    fn fly_lasers(&mut self, faction: Faction, step: u64)
        requires
            old(self)@.valid(),
            step_ok(step),
        ensures
            final(self)@ == old(self)@.lasers_moved(faction, step),
            final(self)@.valid(),
    {
        let ghost before = self@;
        let ghost rule = |l: Laser| laser_after_flight(l, faction, before.win, step);
        let mut kept: Vec<Laser> = Vec::new();
        let n: usize = self.lasers.len();
        let mut j: usize = 0;
        while j < n
            invariant
                j <= n,
                n == self.lasers.len(),
                self@ == before,
                before.valid(),
                step_ok(step),
                rule == |l: Laser| laser_after_flight(l, faction, before.win, step),
                kept@ == before.lasers.take(j as int).filter_map(rule),
                forall|k: int|
                    0 <= k < kept.len() ==> (#[trigger] kept@[k]).valid() && kept@[k].paused
                        == before.state.frozen(),
            decreases n - j,
        {
            let mut l: Laser = self.lasers[j];
            proof {
                before.lasers.lemma_filter_map_take_succ(rule, j as int);
            }
            if l.faction == faction {
                let left: bool = l.fly(&self.win, step);
                if !left {
                    kept.push(l);
                }
            } else {
                kept.push(l);
            }
            j = j + 1;
        }
        proof {
            assert(before.lasers.take(n as int) =~= before.lasers);
        }
        self.lasers = kept;
    }

    /// The movement system of the player's lasers: each flies up by a step
    /// of `step` microseconds and leaves play above the height of the playfield.
    pub fn laser_movement(&mut self, step: u64)
        requires
            old(self)@.valid(),
            step_ok(step),
        ensures
            final(self)@ == old(self)@.lasers_moved(Faction::FromPlayer, step),
            final(self)@.valid(),
    {
        self.fly_lasers(Faction::FromPlayer, step);
    }

    /// The movement system of the enemies' lasers: each flies down by a
    /// step of `step` microseconds and leaves play below the lower edge
    /// and its exit margin.
    pub fn enemy_laser_movement(&mut self, step: u64)
        requires
            old(self)@.valid(),
            step_ok(step),
        ensures
            final(self)@ == old(self)@.lasers_moved(Faction::FromEnemy, step),
            final(self)@.valid(),
    {
        self.fly_lasers(Faction::FromEnemy, step);
    }

    /// The movement system of the player: one step to the left or right for the keys held.
    pub fn player_movement(&mut self, left: bool, right: bool, step: u64)
        requires
            old(self)@.valid(),
            step_ok(step),
        ensures
            final(self)@ == old(self)@.player_moved(left, right, step),
            final(self)@.valid(),
    {
        match self.player {
            Some(p) => {
                let mut q: Player = p;
                q.steer(left, right, &self.win, step);
                self.player = Some(q);
            },
            None => {},
        }
    }

    /// The firing system of the player.
    ///
    /// `trigger` says whether the fire key is held, `released` whether it
    /// was let go in this tick, `delta` how long the tick is.
    pub fn player_fire(&mut self, trigger: bool, released: bool, delta: u64)
        requires
            old(self)@.valid(),
        ensures
            final(self)@ == old(self)@.player_fired(trigger, released, delta),
            final(self)@.valid(),
    {
        match self.player {
            Some(p) => {
                let mut q: Player = p;
                let fired = q.fire(trigger, released, delta, self.sprites.player_laser);
                self.player = Some(q);
                match fired {
                    Some((right, left)) => {
                        self.lasers.push(right);
                        self.lasers.push(left);
                        self.effects.push(Effect::Play(Sound::Firing));
                    },
                    None => {},
                }
            },
            None => {},
        }
    }

    /// The firing system of the enemies: each runs its fire timer for
    /// `delta` and fires when the timer finishes.
    pub fn enemy_fire(&mut self, delta: u64)
        requires
            old(self)@.valid(),
        ensures
            final(self)@ == old(self)@.enemies_fired(delta),
            final(self)@.valid(),
    {
        let ghost before = self@;
        let size: Size = self.sprites.enemy_laser.halved();
        let ghost rule = |e: Enemy| enemy_shot(e, delta, size);
        let n: usize = self.enemies.len();
        let mut i: usize = 0;
        while i < n
            invariant
                i <= n,
                n == self.enemies.len(),
                n == before.enemies.len(),
                before.valid(),
                size == before.sprites.enemy_laser.spec_halved(),
                rule == |e: Enemy| enemy_shot(e, delta, size),
                self@ == (GameModel { enemies: self.enemies@, lasers: self.lasers@, ..before }),
                self.lasers@ == before.lasers + before.enemies.take(i as int).filter_map(rule),
                forall|k: int| 0 <= k < i ==> self.enemies@[k] == before.enemies[k].reloaded(delta),
                forall|k: int| i <= k < n ==> self.enemies@[k] == before.enemies[k],
                forall|k: int|
                    0 <= k < self.lasers.len() ==> (#[trigger] self.lasers@[k]).valid()
                        && self.lasers@[k].paused == before.state.frozen(),
            decreases n - i,
        {
            let mut e: Enemy = self.enemies[i];
            proof {
                before.enemies.lemma_filter_map_take_succ(rule, i as int);
            }
            let fired = e.reload(delta, size);
            self.enemies.set(i, e);
            match fired {
                Some(l) => {
                    self.lasers.push(l);
                },
                None => {},
            }
            i = i + 1;
        }
        proof {
            assert(before.enemies.take(n as int) =~= before.enemies);
            let goal = before.enemies_fired(delta);
            assert(self@.enemies =~= goal.enemies);
            assert(self@.lasers =~= goal.lasers);
        }
    }

    /// The movement system of the enemies: every enemy that is not paused
    /// takes one step of the motion law, `step` microseconds long.
    ///
    /// `trig` is asked, for each such enemy, for the cosine and the sine
    /// of the angle that the enemy wants, in microradians; it returns them
    /// in millionths.
    pub fn enemy_movement<T: Fn(i64) -> (i64, i64)>(&mut self, trig: &T, step: u64)
        requires
            old(self)@.valid(),
            step_ok(step),
            forall|angle: i64| trig.requires((angle,)),
        ensures
            enemies_moved(old(self)@, *trig, step, final(self)@),
            final(self)@.valid(),
    {
        let ghost before = self@;
        let n: usize = self.enemies.len();
        let mut i: usize = 0;
        while i < n
            invariant
                i <= n,
                n == self.enemies.len(),
                n == before.enemies.len(),
                before.valid(),
                step_ok(step),
                forall|angle: i64| trig.requires((angle,)),
                self@ == (GameModel { enemies: self.enemies@, ..before }),
                forall|k: int|
                    0 <= k < i ==> enemy_moved(
                        before.enemies[k],
                        *trig,
                        step,
                        #[trigger] self.enemies@[k],
                    )
                        && self.enemies@[k].valid() && self.enemies@[k].paused
                        == before.enemies[k].paused,
                forall|k: int| i <= k < n ==> self.enemies@[k] == before.enemies[k],
            decreases n - i,
        {
            let mut e: Enemy = self.enemies[i];
            assert(e == before.enemies[i as int]);
            if !e.paused {
                let angle: i64 = e.candidate(step);
                let (cos, sin) = trig(angle);
                e.advance(cos, sin, step);
                self.enemies.set(i, e);
            }
            i = i + 1;
        }
    }
}

} // verus!
