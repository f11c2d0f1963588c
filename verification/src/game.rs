//! The game context: every resource that the systems of a tick share, the
//! game-state machine, and the systems that do not resolve collisions.

use vstd::prelude::*;
use crate::clock::Timer;
use crate::entities::{Enemy, Laser, Player};
use crate::formation::{FormationMaker, WinSize};
use crate::geometry::{Point, Size};
use crate::player_state::PlayerState;

verus! {

/// Most enemies in play at a time.
pub const MAX_ENEMIES: u32 = 4;

/// Time between two attempts to bring an enemy into play, in microseconds.
pub const ENEMY_SPAWN_PERIOD: u64 = 1_000_000;

/// Time between two attempts to bring the player's ship into play.
pub const PLAYER_SPAWN_PERIOD: u64 = 500_000;

/// What the name slot holds until the player writes a name.
pub const NAME_PROMPT: &'static str = "<write down your name here>";

/// What the name slot holds after the score was saved.
pub const SAVED_TEXT: &'static str = "score saved!";

/// What the name slot holds after saving the score failed.
pub const FAILED_TEXT: &'static str = "something went wrong";

/// The three states of a game. `GameOver` is terminal.
#[derive(Clone, Copy, Debug, PartialEq, Eq, Structural)]
pub enum GameState {
    Active,
    Paused,
    GameOver,
}

/// A sound for the caller to play.
#[derive(Clone, Copy, Debug, PartialEq, Eq, Structural)]
pub enum Sound {
    Firing,
    Kill,
    Dead,
}

/// Something for the caller to show or play. Effects are queued in the
/// order in which they arise.
#[derive(Clone, Copy, Debug, PartialEq, Eq, Structural)]
pub enum Effect {
    /// An explosion at the last position of a destroyed entity.
    Explosion(Point),
    /// The game-over overlay.
    GameOverMarker,
    Play(Sound),
}

/// Pixel sizes of the sprites, in position units.
#[derive(Clone, Copy, Debug, PartialEq, Eq, Structural)]
pub struct Sprites {
    pub player: Size,
    pub enemy: Size,
    pub player_laser: Size,
    pub enemy_laser: Size,
}

/// Keys that matter to one tick.
#[derive(Clone, Copy, Debug, PartialEq, Eq, Structural)]
pub struct Input {
    /// The pause key went down in this tick.
    pub pause: bool,
    pub left: bool,
    pub right: bool,
    /// The fire key is held.
    pub fire: bool,
    /// The fire key was let go in this tick.
    pub fire_released: bool,
}

/// What the overlay and the score store may read of a game.
#[derive(Clone, Debug, PartialEq, Eq)]
pub struct Snapshot {
    pub score: u32,
    pub lives: u32,
    pub username: String,
    pub state: GameState,
}

/// The explicit, owned context that every system works on.
#[derive(Clone, Debug, PartialEq, Eq)]
pub struct Game {
    pub state: GameState,
    pub player_state: PlayerState,
    /// The number of enemies in play.
    pub active_enemies: u32,
    pub formation_maker: FormationMaker,
    pub win: WinSize,
    pub sprites: Sprites,
    pub player: Option<Player>,
    pub lasers: Vec<Laser>,
    pub enemies: Vec<Enemy>,
    /// Effects that the caller has not taken yet.
    pub effects: Vec<Effect>,
    /// The name under which the score is to be saved; after a save, its outcome.
    pub username: String,
    pub enemy_spawn_clock: Timer,
    pub player_spawn_clock: Timer,
}

/// The mathematical content of a `Game`.
pub struct GameModel {
    pub state: GameState,
    pub player_state: PlayerState,
    pub active_enemies: u32,
    pub formation_maker: FormationMaker,
    pub win: WinSize,
    pub sprites: Sprites,
    pub player: Option<Player>,
    pub lasers: Seq<Laser>,
    pub enemies: Seq<Enemy>,
    pub effects: Seq<Effect>,
    pub username: Seq<char>,
    pub enemy_spawn_clock: Timer,
    pub player_spawn_clock: Timer,
}

impl View for Game {
    type V = GameModel;

    open spec fn view(&self) -> GameModel {
        GameModel {
            state: self.state,
            player_state: self.player_state,
            active_enemies: self.active_enemies,
            formation_maker: self.formation_maker,
            win: self.win,
            sprites: self.sprites,
            player: self.player,
            lasers: self.lasers@,
            enemies: self.enemies@,
            effects: self.effects@,
            username: self.username@,
            enemy_spawn_clock: self.enemy_spawn_clock,
            player_spawn_clock: self.player_spawn_clock,
        }
    }
}

impl GameState {
    /// The state that the pause key leads to: `Active` and `Paused` swap, `GameOver` stays.
    pub open spec fn toggled(self) -> GameState {
        match self {
            GameState::Active => GameState::Paused,
            GameState::Paused => GameState::Active,
            GameState::GameOver => GameState::GameOver,
        }
    }

    /// The pause flag that every entity carries in this state.
    pub open spec fn frozen(self) -> bool {
        self == GameState::Paused
    }

    /// The state after the pause key was pressed.
    pub fn toggle(self) -> (next: GameState)
        ensures
            next == self.toggled(),
    {
        match self {
            GameState::Active => GameState::Paused,
            GameState::Paused => GameState::Active,
            GameState::GameOver => GameState::GameOver,
        }
    }

    /// The pause flag of this state.
    pub fn is_frozen(self) -> (flag: bool)
        ensures
            flag == self.frozen(),
    {
        match self {
            GameState::Paused => true,
            _ => false,
        }
    }

    pub fn is_game_over(self) -> (over: bool)
        ensures
            over == (self == GameState::GameOver),
    {
        match self {
            GameState::GameOver => true,
            _ => false,
        }
    }
}

impl GameModel {
    /// The invariant of the context.
    ///
    /// The counter of enemies equals the number of enemies in play and
    /// stays within `MAX_ENEMIES`; every entity is valid and carries the
    /// pause flag of the state; a ship is in play exactly when the player's
    /// record says so, and none is once the game is over.
    pub open spec fn valid(self) -> bool {
        &&& self.win.valid()
        &&& self.formation_maker.valid()
        &&& self.player_state.invulnerability_timer.valid()
        &&& self.enemy_spawn_clock.valid()
        &&& self.player_spawn_clock.valid()
        &&& self.active_enemies == self.enemies.len()
        &&& self.enemies.len() <= MAX_ENEMIES
        &&& forall|i: int|
            0 <= i < self.enemies.len() ==> (#[trigger] self.enemies[i]).valid()
                && self.enemies[i].paused == self.state.frozen()
        &&& forall|j: int|
            0 <= j < self.lasers.len() ==> (#[trigger] self.lasers[j]).valid()
                && self.lasers[j].paused == self.state.frozen()
        &&& (self.player is Some) == self.player_state.on
        &&& self.player is Some ==> self.player.unwrap().valid() && self.player.unwrap().paused
            == self.state.frozen()
        &&& self.state == GameState::GameOver ==> !self.player_state.on
    }

    /// The counter of enemies equals the number of enemies in play, which
    /// is at most `MAX_ENEMIES`.
    pub open spec fn count_in_order(self) -> bool {
        &&& self.active_enemies == self.enemies.len()
        &&& self.enemies.len() <= MAX_ENEMIES
    }

    /// The context at the start of a game on the playfield `win`.
    pub open spec fn initial(win: WinSize, sprites: Sprites) -> GameModel {
        GameModel {
            state: GameState::Active,
            player_state: PlayerState::initial(),
            active_enemies: 0,
            formation_maker: FormationMaker {
                group_seq: 0,
                current_formation: None,
                current_formation_members: 0,
            },
            win,
            sprites,
            player: None,
            lasers: Seq::empty(),
            enemies: Seq::empty(),
            effects: Seq::empty(),
            username: NAME_PROMPT@,
            enemy_spawn_clock: Timer::fresh(ENEMY_SPAWN_PERIOD, true),
            player_spawn_clock: Timer::fresh(PLAYER_SPAWN_PERIOD, true),
        }
    }

    /// The context with the pause flag `flag` on every pausable entity: the
    /// player, the lasers of both factions, and the enemies.
    pub open spec fn broadcast(self, flag: bool) -> GameModel {
        GameModel {
            player: match self.player {
                Some(p) => Some(p.with_paused(flag)),
                None => None,
            },
            lasers: self.lasers.map_values(|l: Laser| l.with_paused(flag)),
            enemies: self.enemies.map_values(|e: Enemy| e.with_paused(flag)),
            ..self
        }
    }

    /// The context after the pause system saw the pause key `pressed`.
    ///
    /// The key is honoured in every state but `GameOver`: the state
    /// toggles, and its pause flag reaches every entity in the same step.
    pub open spec fn pause_toggled(self, pressed: bool) -> GameModel {
        if pressed && self.state != GameState::GameOver {
            GameModel { state: self.state.toggled(), ..self }.broadcast(self.state.toggled().frozen())
        } else {
            self
        }
    }
}

impl Game {
    /// A game at its start: active, no entity in play, all counters at rest.
    pub fn new(win: WinSize, sprites: Sprites) -> (game: Game)
        requires
            win.valid(),
        ensures
            game@ == GameModel::initial(win, sprites),
            game@.valid(),
    {
        Game {
            state: GameState::Active,
            player_state: PlayerState::new(),
            active_enemies: 0,
            formation_maker: FormationMaker::new(),
            win,
            sprites,
            player: None,
            lasers: Vec::new(),
            enemies: Vec::new(),
            effects: Vec::new(),
            username: NAME_PROMPT.to_string(),
            enemy_spawn_clock: Timer::new(ENEMY_SPAWN_PERIOD, true),
            player_spawn_clock: Timer::new(PLAYER_SPAWN_PERIOD, true),
        }
    }

    /// Decides the invariant of the context.
    pub fn is_valid(&self) -> (ok: bool)
        ensures
            ok == self@.valid(),
    {
        let frozen: bool = self.state.is_frozen();
        if !(self.win.is_valid() && self.formation_maker.is_valid()
            && self.player_state.invulnerability_timer.is_valid()
            && self.enemy_spawn_clock.is_valid() && self.player_spawn_clock.is_valid()) {
            return false;
        }
        if self.enemies.len() > MAX_ENEMIES as usize || self.active_enemies as usize
            != self.enemies.len() {
            return false;
        }
        match self.player {
            Some(p) => {
                if !self.player_state.on || !p.is_valid() || p.paused != frozen {
                    return false;
                }
            },
            None => {
                if self.player_state.on {
                    return false;
                }
            },
        }
        if self.state.is_game_over() && self.player_state.on {
            return false;
        }
        let n: usize = self.enemies.len();
        let mut i: usize = 0;
        while i < n
            invariant
                i <= n,
                n == self.enemies.len(),
                frozen == self.state.frozen(),
                forall|k: int|
                    0 <= k < i ==> (#[trigger] self.enemies@[k]).valid() && self.enemies@[k].paused
                        == frozen,
            decreases n - i,
        {
            if !self.enemies[i].is_valid() || self.enemies[i].paused != frozen {
                return false;
            }
            i = i + 1;
        }
        let m: usize = self.lasers.len();
        let mut j: usize = 0;
        while j < m
            invariant
                j <= m,
                m == self.lasers.len(),
                frozen == self.state.frozen(),
                forall|k: int|
                    0 <= k < j ==> (#[trigger] self.lasers@[k]).valid() && self.lasers@[k].paused
                        == frozen,
            decreases m - j,
        {
            if !self.lasers[j].is_valid() || self.lasers[j].paused != frozen {
                return false;
            }
            j = j + 1;
        }
        true
    }

    /// Hands the queued effects to the caller and empties the queue.
    pub fn take_effects(&mut self) -> (taken: Vec<Effect>)
        ensures
            taken@ == old(self)@.effects,
            final(self)@ == (GameModel { effects: Seq::empty(), ..old(self)@ }),
            old(self)@.valid() ==> final(self)@.valid(),
    {
        let mut taken: Vec<Effect> = Vec::new();
        std::mem::swap(&mut self.effects, &mut taken);
        taken
    }

    /// Takes the name that the player wrote. Names are taken only once the game is over.
    pub fn enter_name(&mut self, name: String)
        ensures
            final(self)@ == (if old(self).state == GameState::GameOver {
                GameModel { username: name@, ..old(self)@ }
            } else {
                old(self)@
            }),
            old(self)@.valid() ==> final(self)@.valid(),
    {
        if self.state.is_game_over() {
            self.username = name;
        }
    }

    /// Records how saving the score went: the outcome replaces the name in
    /// the name slot, and nothing else changes.
    pub fn save_reported(&mut self, saved: bool)
        ensures
            final(self)@ == (GameModel {
                username: if saved {
                    SAVED_TEXT@
                } else {
                    FAILED_TEXT@
                },
                ..old(self)@
            }),
            old(self)@.valid() ==> final(self)@.valid(),
    {
        if saved {
            self.username = SAVED_TEXT.to_string();
        } else {
            self.username = FAILED_TEXT.to_string();
        }
    }

    /// A copy of what the overlay and the score store may read.
    pub fn snapshot(&self) -> (shot: Snapshot)
        ensures
            shot.score == self.player_state.score,
            shot.lives == self.player_state.lives,
            shot.username@ == self.username@,
            shot.state == self.state,
    {
        Snapshot {
            score: self.player_state.score,
            lives: self.player_state.lives,
            username: self.username.clone(),
            state: self.state,
        }
    }

    /// Sets the pause flag of every pausable entity to `flag`.
    fn broadcast(&mut self, flag: bool)
        ensures
            final(self)@ == old(self)@.broadcast(flag),
    {
        match self.player {
            Some(p) => {
                let mut q = p;
                q.paused = flag;
                self.player = Some(q);
            },
            None => {},
        }
        let ghost before = self@;
        let n: usize = self.lasers.len();
        let mut j: usize = 0;
        while j < n
            invariant
                j <= n,
                n == self.lasers.len(),
                n == before.lasers.len(),
                self@ == (GameModel { lasers: self.lasers@, ..before }),
                forall|k: int| 0 <= k < j ==> self.lasers@[k] == before.lasers[k].with_paused(flag),
                forall|k: int| j <= k < n ==> self.lasers@[k] == before.lasers[k],
            decreases n - j,
        {
            let mut l: Laser = self.lasers[j];
            l.paused = flag;
            self.lasers.set(j, l);
            j = j + 1;
        }
        let ghost midway = self@;
        let m: usize = self.enemies.len();
        let mut i: usize = 0;
        while i < m
            invariant
                i <= m,
                m == self.enemies.len(),
                m == midway.enemies.len(),
                self@ == (GameModel { enemies: self.enemies@, ..midway }),
                forall|k: int|
                    0 <= k < i ==> self.enemies@[k] == midway.enemies[k].with_paused(flag),
                forall|k: int| i <= k < m ==> self.enemies@[k] == midway.enemies[k],
            decreases m - i,
        {
            let mut e: Enemy = self.enemies[i];
            e.paused = flag;
            self.enemies.set(i, e);
            i = i + 1;
        }
        proof {
            let goal = old(self)@.broadcast(flag);
            assert(self@.lasers =~= goal.lasers);
            assert(self@.enemies =~= goal.enemies);
        }
    }

    /// The pause system: honours the pause key unless the game is over.
    ///
    /// `pressed` says whether the pause key went down in this tick.
    pub fn pause_game(&mut self, pressed: bool)
        requires
            old(self)@.valid(),
        ensures
            final(self)@ == old(self)@.pause_toggled(pressed),
            final(self)@.valid(),
    {
        if pressed && !self.state.is_game_over() {
            self.state = self.state.toggle();
            let flag: bool = self.state.is_frozen();
            self.broadcast(flag);
        }
    }
}

} // verus!
