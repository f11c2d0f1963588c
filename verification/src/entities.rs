//! The entities of the playfield and what one simulation step does to each.

use vstd::prelude::*;
use crate::clock::Timer;
use crate::formation::{Formation, WinSize};
use crate::geometry::{Point, Size};
use crate::motion::{
    arrives,
    candidate_angle,
    destination,
    next_angle,
    orbit_point,
    speed_ok,
    step_length,
    step_ok,
    step_toward,
    stepped,
    travel,
    SPEED_LIMIT,
};

verus! {

/// Speed of a new player or enemy, in position units per second.
pub const DEFAULT_SPEED: i64 = 500_000;

/// Speed of the lasers of a new player or enemy.
pub const DEFAULT_LASER_SPEED: i64 = 500_000;

/// Time between two shots of an enemy, in microseconds.
pub const ENEMY_FIRE_PERIOD: u64 = 900_000;

/// Time after which a player that keeps the trigger pulled may fire again.
pub const PLAYER_FIRE_PERIOD: u64 = 500_000;

/// The player keeps this distance from the left and right edges.
pub const PLAYER_EDGE_MARGIN: i64 = 75_000;

/// Height of a new player above the lower edge.
pub const PLAYER_SPAWN_HEIGHT: i64 = 23_750;

/// Horizontal distance of the two player lasers from the player.
pub const PLAYER_LASER_OFFSET: i64 = 31_000;

/// Vertical distance of a new laser from the entity that fired it.
pub const LASER_MUZZLE: i64 = 15_000;

/// Enemy lasers leave play this far below the lower edge.
pub const ENEMY_LASER_EXIT_MARGIN: i64 = 50_000;

/// Largest magnitude of a coordinate of a laser.
pub const LASER_LIMIT: i64 = 0x200_0000_0000;

/// Who fired a laser.
#[derive(Clone, Copy, Debug, PartialEq, Eq, Structural)]
pub enum Faction {
    FromPlayer,
    FromEnemy,
}

/// A laser in flight.
#[derive(Clone, Copy, Debug, PartialEq, Eq, Structural)]
pub struct Laser {
    pub position: Point,
    pub size: Size,
    pub speed: i64,
    pub faction: Faction,
    pub paused: bool,
}

/// An enemy on its way along the orbit of its formation.
#[derive(Clone, Copy, Debug, PartialEq, Eq, Structural)]
pub struct Enemy {
    pub position: Point,
    pub size: Size,
    pub formation: Formation,
    pub speed: i64,
    pub laser_speed: i64,
    pub fire_timer: Timer,
    pub paused: bool,
}

/// The player's ship.
#[derive(Clone, Copy, Debug, PartialEq, Eq, Structural)]
pub struct Player {
    pub position: Point,
    pub size: Size,
    pub speed: i64,
    pub laser_speed: i64,
    pub ready_fire: bool,
    pub fire_timer: Timer,
    pub paused: bool,
}

impl Laser {
    /// The laser is within the bounds in which it can be moved.
    pub open spec fn valid(self) -> bool {
        &&& -LASER_LIMIT <= self.position.x <= LASER_LIMIT
        &&& -LASER_LIMIT <= self.position.y <= LASER_LIMIT
        &&& speed_ok(self.speed)
    }

    /// The same laser with the pause flag set to `flag`.
    pub open spec fn with_paused(self, flag: bool) -> Laser {
        Laser { paused: flag, ..self }
    }

    /// The laser after a step of `step` microseconds: a player's laser
    /// flies up, an enemy's down; a paused laser stays.
    pub open spec fn flown(self, step: u64) -> Laser {
        if self.paused {
            self
        } else {
            let dy = match self.faction {
                Faction::FromPlayer => step_length(self.speed, step),
                Faction::FromEnemy => -step_length(self.speed, step),
            };
            Laser { position: Point { x: self.position.x, y: (self.position.y + dy) as i64 }, ..self }
        }
    }

    /// The laser has left the playfield: a player's laser above the height
    /// `win.h`, an enemy's laser below the lower edge by more than the exit
    /// margin. A paused laser never leaves.
    pub open spec fn gone(self, win: WinSize) -> bool {
        !self.paused && match self.faction {
            Faction::FromPlayer => self.position.y > win.h,
            Faction::FromEnemy => self.position.y < -(win.h / 2) - ENEMY_LASER_EXIT_MARGIN,
        }
    }

    /// Decides `valid`.
    pub fn is_valid(&self) -> (ok: bool)
        ensures
            ok == self.valid(),
    {
        -LASER_LIMIT <= self.position.x && self.position.x <= LASER_LIMIT && -LASER_LIMIT
            <= self.position.y && self.position.y <= LASER_LIMIT && 0 <= self.speed && self.speed
            <= SPEED_LIMIT
    }

    /// Moves the laser by one step and says whether it has left the playfield.
    pub fn fly(&mut self, win: &WinSize, step: u64) -> (left: bool)
        requires
            old(self).valid(),
            win.valid(),
            step_ok(step),
        ensures
            *final(self) == old(self).flown(step),
            left == final(self).gone(*win),
            !left ==> final(self).valid(),
    {
        if self.paused {
            return false;
        }
        let length: i64 = travel(self.speed, step);
        match self.faction {
            Faction::FromPlayer => {
                self.position.y = self.position.y + length;
                self.position.y > win.h
            },
            Faction::FromEnemy => {
                self.position.y = self.position.y - length;
                self.position.y < -(win.h / 2) - ENEMY_LASER_EXIT_MARGIN
            },
        }
    }
}

impl Enemy {
    /// Position, orbit, speeds and timer are ones that a step can work with.
    pub open spec fn valid(self) -> bool {
        &&& self.position.in_bounds()
        &&& self.formation.valid()
        &&& speed_ok(self.speed)
        &&& speed_ok(self.laser_speed)
        &&& self.fire_timer.valid()
    }

    /// An enemy that has just entered play on the formation `f`.
    pub open spec fn fresh(f: Formation, size: Size, paused: bool) -> Enemy {
        Enemy {
            position: f.start,
            size,
            formation: f,
            speed: DEFAULT_SPEED,
            laser_speed: DEFAULT_LASER_SPEED,
            fire_timer: Timer::fresh(ENEMY_FIRE_PERIOD, true),
            paused,
        }
    }

    /// The same enemy with the pause flag set to `flag`.
    pub open spec fn with_paused(self, flag: bool) -> Enemy {
        Enemy { paused: flag, ..self }
    }

    /// The phase for which a step of `step` microseconds needs the cosine and sine.
    pub open spec fn wanted_angle(self, step: u64) -> int {
        candidate_angle(self.formation, self.speed, step)
    }

    /// The point of the orbit that the next step heads for.
    pub open spec fn target(self, cos: i64, sin: i64) -> Point {
        destination(self.formation, cos, sin)
    }

    /// The enemy after one step of the motion law, where `cos` and `sin`
    /// belong to `wanted_angle`. The phase of the formation advances only
    /// when the enemy is close to its destination. A paused enemy stays.
    pub open spec fn advanced(self, cos: i64, sin: i64, step: u64) -> Enemy {
        if self.paused {
            self
        } else {
            let to = self.target(cos, sin);
            Enemy {
                position: stepped(self.position, to, self.speed, step),
                formation: Formation {
                    angle: if arrives(self.position, to, self.speed, step) {
                        self.wanted_angle(step) as i64
                    } else {
                        self.formation.angle
                    },
                    ..self.formation
                },
                ..self
            }
        }
    }

    /// The enemy after its fire timer has run for `delta`; a paused enemy stays.
    pub open spec fn reloaded(self, delta: u64) -> Enemy {
        if self.paused {
            self
        } else {
            Enemy { fire_timer: self.fire_timer.ticked(delta), ..self }
        }
    }

    /// Whether the enemy fires in a step of length `delta`.
    pub open spec fn fires(self, delta: u64) -> bool {
        !self.paused && self.fire_timer.ticked(delta).finished
    }

    /// The laser that the enemy fires from where it is.
    pub open spec fn shot(self, size: Size) -> Laser {
        Laser {
            position: Point { x: self.position.x, y: (self.position.y - LASER_MUZZLE) as i64 },
            size,
            speed: self.laser_speed,
            faction: Faction::FromEnemy,
            paused: false,
        }
    }

    /// An enemy at the start of the formation `f`.
    pub fn spawn(f: Formation, size: Size, paused: bool) -> (e: Enemy)
        requires
            f.valid(),
        ensures
            e == Enemy::fresh(f, size, paused),
            e.valid(),
    {
        Enemy {
            position: f.start,
            size,
            formation: f,
            speed: DEFAULT_SPEED,
            laser_speed: DEFAULT_LASER_SPEED,
            fire_timer: Timer::new(ENEMY_FIRE_PERIOD, true),
            paused,
        }
    }

    /// Decides `valid`.
    pub fn is_valid(&self) -> (ok: bool)
        ensures
            ok == self.valid(),
    {
        self.position.is_in_bounds() && self.formation.is_valid() && 0 <= self.speed && self.speed
            <= SPEED_LIMIT && 0 <= self.laser_speed && self.laser_speed
            <= SPEED_LIMIT && self.fire_timer.is_valid()
    }

    /// The phase, in microradians, whose cosine and sine `advance` expects
    /// for a step of `step` microseconds.
    pub fn candidate(&self, step: u64) -> (angle: i64)
        requires
            self.valid(),
            step_ok(step),
        ensures
            angle == self.wanted_angle(step),
    {
        next_angle(&self.formation, self.speed, step)
    }

    /// One step of the motion law; `cos` and `sin` are the cosine and sine
    /// of `candidate(step)`, in millionths.
    pub fn advance(&mut self, cos: i64, sin: i64, step: u64)
        requires
            old(self).valid(),
            step_ok(step),
        ensures
            *final(self) == old(self).advanced(cos, sin, step),
            final(self).valid(),
            old(self).position == old(self).target(cos, sin) ==> final(self).position
                == old(self).position,
    {
        if self.paused {
            return ;
        }
        let angle: i64 = next_angle(&self.formation, self.speed, step);
        let to: Point = orbit_point(&self.formation, cos, sin);
        let (position, arrived) = step_toward(self.position, to, self.speed, step);
        if arrived {
            self.formation.angle = angle;
        }
        self.position = position;
    }

    /// Runs the fire timer for `delta` and returns the laser fired, if any.
    pub fn reload(&mut self, delta: u64, laser_size: Size) -> (fired: Option<Laser>)
        requires
            old(self).valid(),
        ensures
            *final(self) == old(self).reloaded(delta),
            final(self).valid(),
            fired == (if old(self).fires(delta) {
                Some(final(self).shot(laser_size))
            } else {
                None
            }),
            fired is Some ==> fired.unwrap().valid(),
    {
        if self.paused {
            return None;
        }
        self.fire_timer.tick(delta);
        if self.fire_timer.finished() {
            Some(
                Laser {
                    position: Point { x: self.position.x, y: self.position.y - LASER_MUZZLE },
                    size: laser_size,
                    speed: self.laser_speed,
                    faction: Faction::FromEnemy,
                    paused: false,
                },
            )
        } else {
            None
        }
    }
}

impl Player {
    /// Position, speeds and timer are ones that a step can work with.
    pub open spec fn valid(self) -> bool {
        &&& self.position.in_bounds()
        &&& speed_ok(self.speed)
        &&& speed_ok(self.laser_speed)
        &&& self.fire_timer.valid()
    }

    /// A player that has just entered play at the middle of the lower edge.
    pub open spec fn fresh(win: WinSize, size: Size, paused: bool) -> Player {
        Player {
            position: Point { x: 0, y: (-(win.h / 2) + PLAYER_SPAWN_HEIGHT) as i64 },
            size,
            speed: DEFAULT_SPEED,
            laser_speed: DEFAULT_LASER_SPEED,
            ready_fire: true,
            fire_timer: Timer::fresh(PLAYER_FIRE_PERIOD, true),
            paused,
        }
    }

    /// The same player with the pause flag set to `flag`.
    pub open spec fn with_paused(self, flag: bool) -> Player {
        Player { paused: flag, ..self }
    }

    /// -1, 0 or 1: the way the player moves for the keys held. Left wins
    /// over right, and no key moves the player past the edge margin.
    pub open spec fn heading(self, left: bool, right: bool, win: WinSize) -> int {
        if left && self.position.x - PLAYER_EDGE_MARGIN > -(win.w / 2) {
            -1
        } else if right && self.position.x + PLAYER_EDGE_MARGIN < win.w / 2 {
            1
        } else {
            0
        }
    }

    /// The player after a step of `step` microseconds with the given keys
    /// held; a paused player stays.
    pub open spec fn steered(self, left: bool, right: bool, win: WinSize, step: u64) -> Player {
        if self.paused {
            self
        } else {
            Player {
                position: Point {
                    x: (self.position.x + self.heading(left, right, win) * step_length(
                        self.speed,
                        step,
                    )) as i64,
                    y: self.position.y,
                },
                ..self
            }
        }
    }

    /// Whether the player fires in this step.
    pub open spec fn shoots(self, trigger: bool) -> bool {
        self.ready_fire && trigger && !self.paused
    }

    /// The laser fired at the horizontal distance `dx` from the player.
    pub open spec fn shot(self, dx: int, size: Size) -> Laser {
        Laser {
            position: Point {
                x: (self.position.x + dx) as i64,
                y: (self.position.y + LASER_MUZZLE) as i64,
            },
            size,
            speed: self.laser_speed,
            faction: Faction::FromPlayer,
            paused: false,
        }
    }

    /// The player after the firing rule of one step of length `delta`.
    ///
    /// Firing clears the ready flag. While the flag is clear the cooldown
    /// runs, and the flag is set again when the cooldown finishes or the
    /// trigger is let go. A paused player stays.
    pub open spec fn rearmed(self, trigger: bool, released: bool, delta: u64) -> Player {
        if self.paused {
            self
        } else {
            let ready = self.ready_fire && !trigger;
            let timer = if ready {
                self.fire_timer
            } else {
                self.fire_timer.ticked(delta)
            };
            Player { ready_fire: ready || released || timer.finished, fire_timer: timer, ..self }
        }
    }

    /// A player at the middle of the lower edge of `win`.
    pub fn spawn(win: &WinSize, size: Size, paused: bool) -> (p: Player)
        requires
            win.valid(),
        ensures
            p == Player::fresh(*win, size, paused),
            p.valid(),
    {
        Player {
            position: Point { x: 0, y: -(win.h / 2) + PLAYER_SPAWN_HEIGHT },
            size,
            speed: DEFAULT_SPEED,
            laser_speed: DEFAULT_LASER_SPEED,
            ready_fire: true,
            fire_timer: Timer::new(PLAYER_FIRE_PERIOD, true),
            paused,
        }
    }

    /// Decides `valid`.
    pub fn is_valid(&self) -> (ok: bool)
        ensures
            ok == self.valid(),
    {
        self.position.is_in_bounds() && 0 <= self.speed && self.speed
            <= SPEED_LIMIT && 0 <= self.laser_speed && self.laser_speed
            <= SPEED_LIMIT && self.fire_timer.is_valid()
    }

    /// Moves the player for the keys held.
    pub fn steer(&mut self, left: bool, right: bool, win: &WinSize, step: u64)
        requires
            old(self).valid(),
            win.valid(),
            step_ok(step),
        ensures
            *final(self) == old(self).steered(left, right, *win, step),
            final(self).valid(),
    {
        if self.paused {
            return ;
        }
        let length: i64 = travel(self.speed, step);
        if left && self.position.x - PLAYER_EDGE_MARGIN > -(win.w / 2) {
            self.position.x = self.position.x - length;
        } else if right && self.position.x + PLAYER_EDGE_MARGIN < win.w / 2 {
            self.position.x = self.position.x + length;
        }
    }

    /// Applies the firing rule of one step and returns the two lasers fired, if any.
    pub fn fire(
        &mut self,
        trigger: bool,
        released: bool,
        delta: u64,
        laser_size: Size,
    ) -> (fired: Option<(Laser, Laser)>)
        requires
            old(self).valid(),
        ensures
            *final(self) == old(self).rearmed(trigger, released, delta),
            final(self).valid(),
            fired == (if old(self).shoots(trigger) {
                Some(
                    (
                        old(self).shot(PLAYER_LASER_OFFSET as int, laser_size),
                        old(self).shot(-PLAYER_LASER_OFFSET as int, laser_size),
                    ),
                )
            } else {
                None
            }),
            fired is Some ==> fired.unwrap().0.valid() && fired.unwrap().1.valid(),
    {
        if self.paused {
            return None;
        }
        let mut fired: Option<(Laser, Laser)> = None;
        if self.ready_fire && trigger {
            let y: i64 = self.position.y + LASER_MUZZLE;
            let right = Laser {
                position: Point { x: self.position.x + PLAYER_LASER_OFFSET, y },
                size: laser_size,
                speed: self.laser_speed,
                faction: Faction::FromPlayer,
                paused: false,
            };
            let left = Laser {
                position: Point { x: self.position.x - PLAYER_LASER_OFFSET, y },
                size: laser_size,
                speed: self.laser_speed,
                faction: Faction::FromPlayer,
                paused: false,
            };
            fired = Some((right, left));
            self.ready_fire = false;
        }
        if !self.ready_fire {
            self.fire_timer.tick(delta);
        }
        if released || self.fire_timer.finished() {
            self.ready_fire = true;
        }
        fired
    }
}

} // verus!
