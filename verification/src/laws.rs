//! Laws of the simulation: what holds of every formation generation,
//! every step of the motion law and every tick under pause.

use vstd::prelude::*;
use crate::clock::lemma_ticked_is_valid;
use crate::collision::{first_hit, is_first_hit, laser_hits_enemy, spent, struck};
use crate::entities::{Enemy, Faction, Laser};
use crate::formation::{
    is_history,
    lemma_history_respects_room,
    members_of,
    room_for,
    Formation,
    FormationMaker,
    MAX_FORMATION_MEMBERS,
};
use crate::game::{Effect, GameModel, GameState, Input, Sound, MAX_ENEMIES};
use crate::geometry::spec_distance;
use crate::motion::lemma_step_at_destination;
use crate::lifecycle::enemy_spawned;
use crate::movement::{enemies_moved, enemy_shot, laser_after_flight};
use crate::player_state::PLAYER_RESPAWN_DELAY;
use crate::tick::{motion_phase, spawn_phase, ticked};

verus! {

/// No formation is shared by more than `MAX_FORMATION_MEMBERS` enemies.
///
/// Over any run of requests to a generator, starting from any state with
/// its counters in order, the formations handed out under one identifier
/// number at most what the generator had room for at the start, which is
/// never more than `MAX_FORMATION_MEMBERS`.
pub proof fn law_formation_members_bounded(
    makers: Seq<FormationMaker>,
    handed: Seq<Formation>,
    group: u32,
)
    requires
        is_history(makers, handed),
        makers[0].counted(),
    ensures
        members_of(handed, group) <= room_for(makers[0], group),
        members_of(handed, group) <= MAX_FORMATION_MEMBERS,
{
    lemma_history_respects_room(makers, handed, group);
}

/// The motion law is idempotent at the destination.
///
/// An enemy that stands on the point of the orbit that its step heads for
/// is at distance zero from it and stays where it is.
pub proof fn law_motion_idempotent_at_destination(e: Enemy, cos: i64, sin: i64, step: u64)
    requires
        e.position == e.target(cos, sin),
    ensures
        spec_distance(e.position, e.target(cos, sin)) == 0,
        e.advanced(cos, sin, step).position == e.position,
{
    lemma_step_at_destination(e.position, e.speed, step);
}

/// A rule that keeps every element as it is leaves a sequence as it is.
proof fn lemma_filter_map_keeps<A>(s: Seq<A>, f: spec_fn(A) -> Option<A>)
    requires
        forall|i: int| 0 <= i < s.len() ==> f(#[trigger] s[i]) == Some(s[i]),
    ensures
        s.filter_map(f) == s,
    decreases s.len(),
{
    if s.len() > 0 {
        lemma_filter_map_keeps(s.drop_last(), f);
        assert(s.drop_last().push(s.last()) =~= s);
        assert(s.drop_last() + seq![s.last()] =~= s);
    }
}

/// A rule that drops every element leaves nothing.
proof fn lemma_filter_map_drops<A, B>(s: Seq<A>, f: spec_fn(A) -> Option<B>)
    requires
        forall|i: int| 0 <= i < s.len() ==> f(#[trigger] s[i]) is None,
    ensures
        s.filter_map(f) == Seq::<B>::empty(),
    decreases s.len(),
{
    if s.len() > 0 {
        lemma_filter_map_drops(s.drop_last(), f);
    }
}

/// Pausing freezes motion and firing.
///
/// In a paused game the motion phase of a tick, whatever the keys and the
/// length of the tick, leaves every position, every timer, the lasers in
/// play and the queue of effects as they are.
pub proof fn law_pause_freezes_motion<T: Fn(i64) -> (i64, i64)>(
    pre: GameModel,
    input: Input,
    delta: u64,
    trig: T,
    post: GameModel,
)
    requires
        pre.valid(),
        pre.state == GameState::Paused,
        motion_phase(pre, input, delta, trig, post),
    ensures
        post == pre,
{
    let mid = choose|mid: GameModel|
        {
            &&& enemies_moved(pre, trig, delta, mid)
            &&& post == mid.flown_and_fired(input, delta)
        };
    assert(mid.enemies =~= pre.enemies);
    assert(mid == pre);
    let a = pre.player_moved(input.left, input.right, delta);
    assert(a == pre);
    let up = |l: Laser| laser_after_flight(l, Faction::FromPlayer, pre.win, delta);
    lemma_filter_map_keeps(pre.lasers, up);
    let b = a.lasers_moved(Faction::FromPlayer, delta);
    assert(b == pre);
    let down = |l: Laser| laser_after_flight(l, Faction::FromEnemy, pre.win, delta);
    lemma_filter_map_keeps(pre.lasers, down);
    let c = b.lasers_moved(Faction::FromEnemy, delta);
    assert(c == pre);
    let d = c.player_fired(input.fire, input.fire_released, delta);
    assert(d == pre);
    let size = pre.sprites.enemy_laser.spec_halved();
    let shots = |e: Enemy| enemy_shot(e, delta, size);
    lemma_filter_map_drops(pre.enemies, shots);
    let e = d.enemies_fired(delta);
    assert(e.enemies =~= pre.enemies);
    assert(e.lasers =~= pre.lasers);
    assert(e == pre);
}

/// The pause system keeps the invariant of the context.
proof fn lemma_pause_keeps_valid(pre: GameModel, pressed: bool)
    requires
        pre.valid(),
    ensures
        pre.pause_toggled(pressed).valid(),
{
}

/// The spawn phase keeps the invariant of the context and the state, and
/// leaves every entity that is in play as it is: lasers are neither added
/// nor changed, enemies are only added at the end, and a ship that is in
/// play stays with its invulnerability window.
pub proof fn law_spawns_leave_entities<H: Fn(i64, i64) -> i64>(
    pre: GameModel,
    now: u64,
    delta: u64,
    heading: H,
    post: GameModel,
)
    requires
        pre.valid(),
        spawn_phase(pre, now, delta, heading, post),
    ensures
        post.valid(),
        post.state == pre.state,
        post.lasers == pre.lasers,
        post.effects == pre.effects,
        pre.enemies.len() <= post.enemies.len() <= pre.enemies.len() + 1,
        post.enemies.take(pre.enemies.len() as int) == pre.enemies,
        pre.player is Some ==> post.player == pre.player && post.player_state == pre.player_state,
        post.player_state.lives == pre.player_state.lives,
        post.player_state.score == pre.player_state.score,
{
    lemma_ticked_is_valid(pre.enemy_spawn_clock, delta);
    lemma_ticked_is_valid(pre.player_spawn_clock, delta);
    let clocked = pre.clocks_run(delta);
    assert(clocked.valid());
    if clocked.enemy_spawn_clock.finished {
        let mid = choose|mid: GameModel|
            {
                &&& enemy_spawned(clocked, heading, mid)
                &&& post == mid.player_spawned_on_time(now)
            };
        assert(mid.valid());
        assert(mid.enemies.take(pre.enemies.len() as int) =~= pre.enemies);
    } else {
        assert(clocked.enemies.take(pre.enemies.len() as int) =~= pre.enemies);
    }
}

/// Under pause a tick does the bookkeeping of spawns and nothing else.
///
/// If the game is paused once the pause key is resolved, the tick is its
/// spawn phase: no entity moves, no timer of an entity runs, nothing
/// fires and no collision is resolved, whatever the other keys.
pub proof fn law_paused_tick_only_spawns<H: Fn(i64, i64) -> i64, T: Fn(i64) -> (i64, i64)>(
    pre: GameModel,
    input: Input,
    now: u64,
    delta: u64,
    heading: H,
    trig: T,
    post: GameModel,
)
    requires
        pre.valid(),
        pre.pause_toggled(input.pause).state == GameState::Paused,
        ticked(pre, input, now, delta, heading, trig, post),
    ensures
        spawn_phase(pre.pause_toggled(input.pause), now, delta, heading, post),
{
    let resolved = pre.pause_toggled(input.pause);
    lemma_pause_keeps_valid(pre, input.pause);
    let (spawned, moved) = choose|spawned: GameModel, moved: GameModel|
        {
            &&& spawn_phase(resolved, now, delta, heading, spawned)
            &&& motion_phase(spawned, input, delta, trig, moved)
            &&& post == moved.collided(now, delta)
        };
    law_spawns_leave_entities(resolved, now, delta, heading, spawned);
    law_pause_freezes_motion(spawned, input, delta, trig, moved);
}

/// On every tick the counter of enemies equals the number of enemies in
/// play and is at most `MAX_ENEMIES`.
pub proof fn law_enemy_count_tracks_enemies<H: Fn(i64, i64) -> i64, T: Fn(i64) -> (i64, i64)>(
    pre: GameModel,
    input: Input,
    now: u64,
    delta: u64,
    heading: H,
    trig: T,
    post: GameModel,
)
    requires
        pre.count_in_order(),
        ticked(pre, input, now, delta, heading, trig, post),
    ensures
        post.count_in_order(),
{
    let resolved = pre.pause_toggled(input.pause);
    assert(resolved.count_in_order());
    let (spawned, moved) = choose|spawned: GameModel, moved: GameModel|
        {
            &&& spawn_phase(resolved, now, delta, heading, spawned)
            &&& motion_phase(spawned, input, delta, trig, moved)
            &&& post == moved.collided(now, delta)
        };
    let clocked = resolved.clocks_run(delta);
    if clocked.enemy_spawn_clock.finished {
        let mid = choose|mid: GameModel|
            {
                &&& enemy_spawned(clocked, heading, mid)
                &&& spawned == mid.player_spawned_on_time(now)
            };
        assert(mid.count_in_order());
    }
    assert(spawned.count_in_order());
    let stepped = choose|stepped: GameModel|
        {
            &&& enemies_moved(spawned, trig, delta, stepped)
            &&& moved == stepped.flown_and_fired(input, delta)
        };
    assert(stepped.count_in_order());
    assert(moved.count_in_order());
    let alive = |e: Enemy| !struck(e, moved.lasers);
    moved.enemies.lemma_filter_len(alive);
    let cleared = moved.player_lasers_resolved();
    assert(cleared.count_in_order());
}

/// Across a tick lives never grow, the score never shrinks, and a game
/// that is over stays over.
pub proof fn law_tick_is_monotone<H: Fn(i64, i64) -> i64, T: Fn(i64) -> (i64, i64)>(
    pre: GameModel,
    input: Input,
    now: u64,
    delta: u64,
    heading: H,
    trig: T,
    post: GameModel,
)
    requires
        pre.count_in_order(),
        pre.pause_toggled(input.pause).score_has_room(),
        ticked(pre, input, now, delta, heading, trig, post),
    ensures
        post.player_state.lives <= pre.player_state.lives,
        pre.player_state.score <= post.player_state.score <= pre.player_state.score + MAX_ENEMIES,
        pre.state == GameState::GameOver ==> post.state == GameState::GameOver,
        post.state == GameState::GameOver && pre.state != GameState::GameOver
            ==> post.player_state.lives == 0 && post.active_enemies == 0,
{
    let resolved = pre.pause_toggled(input.pause);
    assert(resolved.count_in_order());
    let (spawned, moved) = choose|spawned: GameModel, moved: GameModel|
        {
            &&& spawn_phase(resolved, now, delta, heading, spawned)
            &&& motion_phase(spawned, input, delta, trig, moved)
            &&& post == moved.collided(now, delta)
        };
    let clocked = resolved.clocks_run(delta);
    if clocked.enemy_spawn_clock.finished {
        let mid = choose|mid: GameModel|
            {
                &&& enemy_spawned(clocked, heading, mid)
                &&& spawned == mid.player_spawned_on_time(now)
            };
        assert(mid.count_in_order());
        assert(mid.player_state == pre.player_state);
    }
    assert(spawned.count_in_order());
    let stepped = choose|stepped: GameModel|
        {
            &&& enemies_moved(spawned, trig, delta, stepped)
            &&& moved == stepped.flown_and_fired(input, delta)
        };
    assert(moved.enemies.len() == spawned.enemies.len());
    assert(moved.player_state == spawned.player_state);
    assert(moved.state == spawned.state);
    let alive = |e: Enemy| !struck(e, moved.lasers);
    moved.enemies.lemma_filter_len(alive);
}

/// No ship enters play until more than the respawn delay has passed
/// since the last one was shot.
pub proof fn law_respawn_waits(pre: GameModel, shot: u64, now: u64)
    requires
        pre.player_state.last_shot_time == Some(shot),
        now <= shot + PLAYER_RESPAWN_DELAY,
    ensures
        pre.player_spawned(now) == pre,
{
}

/// A ship cannot be hit before its invulnerability window has run out:
/// while the time on the timer and the tick together fall short of the
/// window, the collision pass only runs the timer.
pub proof fn law_window_shields_ship(pre: GameModel, now: u64, delta: u64)
    requires
        !pre.player_state.invulnerability_timer.finished,
        pre.player_state.invulnerability_timer.elapsed + delta
            < pre.player_state.invulnerability_timer.duration,
    ensures
        pre.enemy_lasers_resolved(now, delta).player == pre.player,
        pre.enemy_lasers_resolved(now, delta).lasers == pre.lasers,
        pre.enemy_lasers_resolved(now, delta).state == pre.state,
        pre.enemy_lasers_resolved(now, delta).player_state.lives == pre.player_state.lives,
{
}

/// Pausing shields the player: in a paused game the enemies' lasers do
/// not hit the ship and the invulnerability window does not run.
pub proof fn law_pause_shields_player(pre: GameModel, now: u64, delta: u64)
    requires
        pre.state == GameState::Paused,
    ensures
        pre.enemy_lasers_resolved(now, delta) == pre,
{
}

/// Resuming restores what pausing found.
///
/// Pressing the pause key twice in a game that is active or paused gives
/// back the same context, so that play goes on from it as if it had never
/// been paused.
pub proof fn law_pause_resume_round_trip(pre: GameModel)
    requires
        pre.valid(),
        pre.state != GameState::GameOver,
    ensures
        pre.pause_toggled(true).pause_toggled(true) == pre,
        pre.pause_toggled(true).state == pre.state.toggled(),
{
    let once = pre.pause_toggled(true);
    let twice = once.pause_toggled(true);
    assert(twice.lasers =~= pre.lasers);
    assert(twice.enemies =~= pre.enemies);
}

/// The pause key does nothing once the game is over, and no system
/// leaves that state: collisions keep it.
pub proof fn law_game_over_is_terminal(pre: GameModel, pressed: bool, now: u64, delta: u64)
    requires
        pre.state == GameState::GameOver,
    ensures
        pre.pause_toggled(pressed) == pre,
        pre.player_spawned(now) == pre,
        !pre.wants_enemy(),
        pre.collided(now, delta).state == GameState::GameOver,
{
}

/// The sweep leaves no enemy, whatever the counter was, and sweeping
/// again changes nothing.
pub proof fn law_sweep_is_idempotent(pre: GameModel)
    requires
        pre.state == GameState::GameOver,
    ensures
        pre.player_lasers_resolved().active_enemies == 0,
        pre.player_lasers_resolved().enemies.len() == 0,
        pre.player_lasers_resolved().player_lasers_resolved() == pre.player_lasers_resolved(),
{
}

/// An enemy is credited once, however many lasers hit it.
///
/// When the only enemy in play is hit by any number of the player's
/// lasers, the pass removes it, the score grows by exactly one and the
/// counter of enemies drops by exactly one, and no laser that hit it stays.
pub proof fn law_one_enemy_one_credit(pre: GameModel)
    requires
        pre.valid(),
        pre.state == GameState::Active,
        pre.player_state.score < u32::MAX,
        pre.enemies.len() == 1,
        struck(pre.enemies[0], pre.lasers),
    ensures
        pre.player_lasers_resolved().enemies.len() == 0,
        pre.player_lasers_resolved().player_state.score == pre.player_state.score + 1,
        pre.player_lasers_resolved().active_enemies == pre.active_enemies - 1,
        forall|j: int|
            0 <= j < pre.player_lasers_resolved().lasers.len() ==> !laser_hits_enemy(
                #[trigger] pre.player_lasers_resolved().lasers[j],
                pre.enemies[0],
            ),
{
    let alive = |e: Enemy| !struck(e, pre.lasers);
    let live = |l: Laser| !spent(l, pre.enemies);
    Seq::<Enemy>::empty().lemma_filter_push(pre.enemies[0], alive);
    assert(Seq::<Enemy>::empty().push(pre.enemies[0]) =~= pre.enemies);
    assert(Seq::<Enemy>::empty().filter(alive) =~= Seq::<Enemy>::empty()) by {
        Seq::<Enemy>::empty().lemma_filter_len(alive);
    }
    let kept = pre.lasers.filter(live);
    assert forall|j: int| 0 <= j < kept.len() implies !laser_hits_enemy(
        #[trigger] kept[j],
        pre.enemies[0],
    ) by {
        pre.lasers.lemma_filter_pred(live, j);
    }
}

/// A hit that finds no life left ends the game, and no other hit does.
///
/// When a laser takes effect on the ship, the game is over afterwards
/// exactly if no life was left. Then the overlay is queued once, followed
/// by the explosion, and no enemy stays in play. Otherwise one life is
/// taken and the state stays as it was.
pub proof fn law_hit_without_lives_ends_game(pre: GameModel, now: u64, delta: u64)
    requires
        pre.valid(),
        pre.player_exposed(),
        pre.player_state.invulnerability_timer.ticked(delta).finished,
        first_hit(pre.lasers, pre.player.unwrap()) is Some,
    ensures
        ({
            let post = pre.enemy_lasers_resolved(now, delta);
            let blast = Effect::Explosion(pre.player.unwrap().position);
            &&& post.player is None
            &&& post.lasers.len() == pre.lasers.len() - 1
            &&& post.player_state.last_shot_time == Some(now)
            &&& pre.player_state.lives == 0 ==> {
                &&& post.state == GameState::GameOver
                &&& post.player_state.lives == 0
                &&& post.active_enemies == 0
                &&& post.enemies.len() == 0
                &&& post.effects == pre.effects.push(Effect::GameOverMarker).push(blast)
            }
            &&& pre.player_state.lives > 0 ==> {
                &&& post.state == pre.state
                &&& post.player_state.lives == pre.player_state.lives - 1
                &&& post.enemies == pre.enemies
                &&& post.effects == pre.effects.push(Effect::Play(Sound::Dead)).push(blast)
            }
        }),
{
    let p = pre.player.unwrap();
    let j = first_hit(pre.lasers, p).unwrap();
    assert(is_first_hit(pre.lasers, p, j));
}

/// The collision pass of the enemies' lasers takes at most one life and
/// leaves the score alone; it ends the game only when no life was left,
/// and then no enemy stays. A game that is over is not hit again.
pub proof fn law_hit_takes_one_life(pre: GameModel, now: u64, delta: u64)
    requires
        pre.valid(),
    ensures
        ({
            let post = pre.enemy_lasers_resolved(now, delta);
            &&& post.player_state.lives <= pre.player_state.lives
            &&& post.player_state.lives + 1 >= pre.player_state.lives
            &&& post.player_state.score == pre.player_state.score
            &&& (post.state == GameState::GameOver && pre.state != GameState::GameOver) ==> {
                &&& pre.player_state.lives == 0
                &&& post.active_enemies == 0
                &&& post.enemies.len() == 0
            }
            &&& pre.state == GameState::GameOver ==> post == pre
        }),
{
}

} // verus!
