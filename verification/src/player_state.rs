//! The player's record across lives: whether a ship is in play, when it was
//! last shot, the invulnerability window, lives and score.

use vstd::prelude::*;
use crate::clock::Timer;

verus! {

/// Lives of a new player.
pub const STARTING_LIVES: u32 = 3;

/// Time for which a ship that has just entered play cannot be hit, in microseconds.
pub const INVULNERABILITY: u64 = 1_500_000;

/// Time that must pass after a ship was shot before the next one enters play.
pub const PLAYER_RESPAWN_DELAY: u64 = 2_000_000;

#[derive(Clone, Copy, Debug, PartialEq, Eq)]
pub struct PlayerState {
    /// A ship is in play.
    pub on: bool,
    /// When the last ship was shot; `None` if none was, or since a ship entered play.
    pub last_shot_time: Option<u64>,
    /// Runs while a ship is in play; the ship can be hit once it has finished.
    pub invulnerability_timer: Timer,
    pub lives: u32,
    pub score: u32,
}

impl PlayerState {
    /// The record at the start of a game.
    pub open spec fn initial() -> PlayerState {
        PlayerState {
            on: false,
            last_shot_time: None,
            invulnerability_timer: Timer::fresh(0, false),
            lives: STARTING_LIVES,
            score: 0,
        }
    }

    /// The record after a ship was shot at `time`: a life is taken if one is left.
    pub open spec fn after_shot(self, time: u64) -> PlayerState {
        PlayerState {
            on: false,
            last_shot_time: Some(time),
            invulnerability_timer: Timer::fresh(0, false),
            lives: if self.lives != 0 {
                (self.lives - 1) as u32
            } else {
                0
            },
            score: self.score,
        }
    }

    /// The record after a ship entered play.
    pub open spec fn after_spawn(self) -> PlayerState {
        PlayerState {
            on: true,
            last_shot_time: None,
            invulnerability_timer: Timer::fresh(INVULNERABILITY, false),
            lives: self.lives,
            score: self.score,
        }
    }

    /// Whether a ship may enter play at the time `now`: none is in play, and
    /// either no shot is on record or the respawn delay has passed since.
    pub open spec fn may_spawn(self, now: u64) -> bool {
        !self.on && match self.last_shot_time {
            None => true,
            Some(shot) => now > shot + PLAYER_RESPAWN_DELAY,
        }
    }

    pub fn new() -> (state: PlayerState)
        ensures
            state == PlayerState::initial(),
            state.invulnerability_timer.valid(),
    {
        PlayerState {
            on: false,
            last_shot_time: None,
            invulnerability_timer: Timer::new(0, false),
            lives: STARTING_LIVES,
            score: 0,
        }
    }

    /// Records that the ship was shot at `time`. Returns whether the player
    /// is dead: no life was left to take.
    pub fn shot_or_dead(&mut self, time: u64) -> (dead: bool)
        ensures
            *final(self) == old(self).after_shot(time),
            dead == (old(self).lives == 0),
            final(self).invulnerability_timer.valid(),
    {
        self.on = false;
        self.last_shot_time = Some(time);
        self.invulnerability_timer = Timer::new(0, false);
        if self.lives != 0 {
            self.lives = self.lives - 1;
            false
        } else {
            true
        }
    }

    /// Records that a ship entered play, and starts its invulnerability window.
    pub fn spawned(&mut self)
        ensures
            *final(self) == old(self).after_spawn(),
            final(self).invulnerability_timer.valid(),
    {
        self.on = true;
        self.last_shot_time = None;
        self.invulnerability_timer = Timer::new(INVULNERABILITY, false);
    }

    /// Decides `may_spawn`.
    pub fn can_spawn(&self, now: u64) -> (ok: bool)
        ensures
            ok == self.may_spawn(now),
    {
        if self.on {
            return false;
        }
        match self.last_shot_time {
            None => true,
            Some(shot) => now > shot && now - shot > PLAYER_RESPAWN_DELAY,
        }
    }
}

} // verus!
