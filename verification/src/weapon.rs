//! The weapon firing and reload state machine.
//!
//! A weapon passes through two phases. While the initial delay runs, every
//! update advances only that delay and the weapon can never fire. Once the
//! initial delay has elapsed — permanently, for the weapon's lifetime — each
//! update advances the reload countdown instead, and the weapon may fire
//! exactly when that countdown has run out. An automatic weapon re-arms its
//! reload countdown by itself on the update that permits a shot; a manual
//! weapon stays ready until some external caller resets the countdown.

use vstd::prelude::*;

use crate::timer::CountdownTimer;

verus! {

/// Policy for the reload countdown once it finishes: restart it at once
/// (`Automatic`) or hold the weapon ready until an external reset (`Manual`).
#[derive(Clone, Copy, Debug, PartialEq, Eq, Structural)]
pub enum FireMode {
    Automatic,
    Manual,
}

/// A planar vector in caller-chosen fixed-point units, carried through to the
/// projectile spawner unchanged.
#[derive(Clone, Copy, Debug, PartialEq, Eq, Structural)]
pub struct Vec2i {
    pub x: i64,
    pub y: i64,
}

/// Where projectiles appear: at an offset relative to the firing entity, or
/// at an absolute world position.
#[derive(Clone, Copy, Debug, PartialEq, Eq, Structural)]
pub enum SpawnPosition {
    Local(Vec2i),
    Global(Vec2i),
}

/// Static configuration for a weapon, as read from a data file. Durations
/// are integer time units; the remaining scalar parameters are caller-chosen
/// fixed-point units that the state machine never interprets.
#[derive(Clone, Copy, Debug, PartialEq, Eq, Structural)]
pub struct WeaponData {
    /// Identifier of the projectile type that the weapon spawns.
    pub ammunition: u32,
    /// Damage of each projectile spawned by the weapon.
    pub damage: i64,
    /// Position to spawn projectiles, either relative to the source or global.
    pub position: SpawnPosition,
    /// Time between firing projectiles, in time units.
    pub reload_time: u64,
    /// Initial delay before the first projectile(s) can be spawned, in time units.
    pub initial_time: u64,
    /// Base speed of spawned projectiles.
    pub speed: i64,
    /// Angle of spawned projectiles, in fixed-point radians.
    pub direction: i64,
    /// Time before spawned projectiles despawn, in time units.
    pub despawn_time: u64,
    /// Number of projectiles spawned at once.
    pub count: usize,
    /// Determines the shape of the arc using (x, y) velocity multipliers.
    pub spread_weights: Vec2i,
    /// Determines how the weapon handles the reload timer.
    pub fire_mode: FireMode,
    /// Maximum number of projectiles the weapon can have.
    pub capacity: usize,
    /// Maximum spread angle of fired projectiles, in fixed-point radians.
    pub max_spread_arc: i64,
    /// Target gap between fired projectiles.
    pub projectile_gap: i64,
}

/// Live state of a weapon: the two countdown timers of the firing gate plus
/// the projectile parameters copied verbatim from its configuration.
pub struct Weapon {
    /// Identifier of the projectile type that the weapon spawns.
    pub ammunition: u32,
    /// Damage of each projectile spawned by the weapon.
    pub damage: i64,
    /// Position to spawn projectiles, either relative to the source or global.
    pub position: SpawnPosition,
    /// Tracks time until the next projectile(s) can be spawned.
    pub reload_timer: CountdownTimer,
    /// Tracks the initial delay before the first projectile(s) can be spawned.
    pub initial_timer: CountdownTimer,
    /// Base speed of spawned projectiles.
    pub speed: i64,
    /// Angle of spawned projectiles, in fixed-point radians.
    pub direction: i64,
    /// Time before spawned projectiles despawn, in time units.
    pub despawn_time: u64,
    /// Number of projectiles spawned at once.
    pub count: usize,
    /// Determines the shape of the arc using (x, y) velocity multipliers.
    pub spread_weights: Vec2i,
    /// Determines how the weapon handles the reload timer.
    pub fire_mode: FireMode,
    /// Maximum number of projectiles the weapon can have.
    pub capacity: usize,
    /// Maximum spread angle of fired projectiles, in fixed-point radians.
    pub max_spread_arc: i64,
    /// Target gap between fired projectiles.
    pub projectile_gap: i64,
}

/// The weapon built from a configuration record: both timers armed with the
/// configured durations and no time elapsed, every other field copied.
pub open spec fn weapon_of_data(data: WeaponData) -> Weapon {
    Weapon {
        ammunition: data.ammunition,
        damage: data.damage,
        position: data.position,
        reload_timer: CountdownTimer::spec_new(data.reload_time),
        initial_timer: CountdownTimer::spec_new(data.initial_time),
        speed: data.speed,
        direction: data.direction,
        despawn_time: data.despawn_time,
        count: data.count,
        spread_weights: data.spread_weights,
        fire_mode: data.fire_mode,
        capacity: data.capacity,
        max_spread_arc: data.max_spread_arc,
        projectile_gap: data.projectile_gap,
    }
}

/// The weapon state after one update by `delta` time units.
///
/// While the initial delay has not elapsed, only that delay advances; the
/// reload countdown is untouched. Afterwards only the reload countdown
/// advances, and an automatic weapon re-arms it on the update where it runs
/// out. No field other than the two timers ever changes.
pub open spec fn weapon_after_update(w: Weapon, delta: u64) -> Weapon {
    if !w.initial_timer.finished {
        Weapon { initial_timer: w.initial_timer.spec_ticked(delta), ..w }
    } else {
        let reload = w.reload_timer.spec_ticked(delta);
        if reload.finished && w.fire_mode is Automatic {
            Weapon { reload_timer: reload.spec_reset(), ..w }
        } else {
            Weapon { reload_timer: reload, ..w }
        }
    }
}

/// Whether one update by `delta` time units permits a shot: the initial
/// delay must already have elapsed before the update, and the reload
/// countdown must have run out once advanced by `delta`.
pub open spec fn weapon_fireable(w: Weapon, delta: u64) -> bool {
    w.initial_timer.finished && w.reload_timer.spec_ticked(delta).finished
}

impl Weapon {
    /// Well-formedness: both timers are well-formed countdowns.
    pub open spec fn inv(self) -> bool {
        self.initial_timer.inv() && self.reload_timer.inv()
    }

    /// Updates the weapon's timers by `delta_time` time units and reports
    /// whether the weapon can be fired on this update.
    pub fn update(&mut self, delta_time: u64) -> (fireable: bool)
        requires
            old(self).inv(),
        ensures
            *final(self) == weapon_after_update(*old(self), delta_time),
            fireable == weapon_fireable(*old(self), delta_time),
            final(self).inv(),
    {
        if !self.initial_timer.finished() {
            // The initial delay is still running: advance it and keep the
            // weapon unable to fire, whatever the reload state is.
            self.initial_timer.tick(delta_time);
            false
        } else {
            self.reload_timer.tick(delta_time);
            if self.reload_timer.finished() {
                // A shot is permitted; an automatic weapon starts the next
                // countdown at once, a manual one waits for an external reset.
                if matches!(self.fire_mode, FireMode::Automatic) {
                    self.reload_timer.reset();
                }
                true
            } else {
                false
            }
        }
    }
}

/// The cumulative elapsed time of a sequence of update deltas.
pub open spec fn total_time(deltas: Seq<u64>) -> int
    decreases deltas.len(),
{
    if deltas.len() == 0 {
        0
    } else {
        deltas[0] + total_time(deltas.drop_first())
    }
}

/// The weapon state after a whole run of updates, one per delta in order.
pub open spec fn weapon_run(w: Weapon, deltas: Seq<u64>) -> Weapon
    decreases deltas.len(),
{
    if deltas.len() == 0 {
        w
    } else {
        weapon_run(weapon_after_update(w, deltas[0]), deltas.drop_first())
    }
}

/// What each update of a run returns: the i-th element is whether the i-th
/// update permits a shot.
pub open spec fn weapon_run_results(w: Weapon, deltas: Seq<u64>) -> Seq<bool>
    decreases deltas.len(),
{
    if deltas.len() == 0 {
        Seq::empty()
    } else {
        seq![weapon_fireable(w, deltas[0])]
            + weapon_run_results(weapon_after_update(w, deltas[0]), deltas.drop_first())
    }
}

/// Cumulative elapsed time is never negative.
pub proof fn lemma_total_time_nonneg(deltas: Seq<u64>)
    ensures
        total_time(deltas) >= 0,
    decreases deltas.len(),
{
    if deltas.len() > 0 {
        lemma_total_time_nonneg(deltas.drop_first());
    }
}

/// A run produces one result per update.
pub proof fn lemma_run_results_len(w: Weapon, deltas: Seq<u64>)
    ensures
        weapon_run_results(w, deltas).len() == deltas.len(),
    decreases deltas.len(),
{
    if deltas.len() > 0 {
        lemma_run_results_len(weapon_after_update(w, deltas[0]), deltas.drop_first());
    }
}

/// Within one update only one timer ever advances: the reload countdown is
/// untouched while the initial delay runs, and the initial delay is
/// untouched once it has elapsed.
pub proof fn lemma_only_one_timer_advances(w: Weapon, delta: u64)
    ensures
        !w.initial_timer.finished ==> weapon_after_update(w, delta).reload_timer
            == w.reload_timer,
        w.initial_timer.finished ==> weapon_after_update(w, delta).initial_timer
            == w.initial_timer,
{
}

/// While the cumulative elapsed time of a run stays below what is left of
/// the initial delay, no update in the run permits a shot.
pub proof fn lemma_initial_delay_blocks(w: Weapon, deltas: Seq<u64>)
    requires
        w.inv(),
        w.initial_timer.elapsed + total_time(deltas) < w.initial_timer.duration,
    ensures
        forall|i: int| 0 <= i < deltas.len() ==> !weapon_run_results(w, deltas)[i],
    decreases deltas.len(),
{
    if deltas.len() > 0 {
        let rest = deltas.drop_first();
        lemma_total_time_nonneg(rest);
        let w1 = weapon_after_update(w, deltas[0]);
        lemma_run_results_len(w1, rest);
        lemma_initial_delay_blocks(w1, rest);
        assert forall|i: int| 0 <= i < deltas.len() implies !weapon_run_results(
            w,
            deltas,
        )[i] by {
            if i > 0 {
                assert(weapon_run_results(w, deltas)[i] == weapon_run_results(w1, rest)[i - 1]);
            }
        }
    }
}

/// The update that brings the initial delay's accumulated time to its
/// duration (or beyond) ends the initial-delay phase; that very update
/// still does not permit a shot.
pub proof fn lemma_initial_delay_exit(w: Weapon, delta: u64)
    requires
        w.inv(),
        !w.initial_timer.finished,
        w.initial_timer.elapsed + delta >= w.initial_timer.duration,
    ensures
        weapon_after_update(w, delta).initial_timer.finished,
        !weapon_fireable(w, delta),
{
}

/// Once the initial delay has elapsed, no later run of updates re-enters
/// the initial-delay phase, regardless of the time passed.
pub proof fn lemma_initial_phase_is_permanent(w: Weapon, deltas: Seq<u64>)
    requires
        w.inv(),
        w.initial_timer.finished,
    ensures
        weapon_run(w, deltas).initial_timer.finished,
    decreases deltas.len(),
{
    if deltas.len() > 0 {
        lemma_initial_phase_is_permanent(weapon_after_update(w, deltas[0]), deltas.drop_first());
    }
}

/// After the initial delay, an update permits a shot exactly when it brings
/// the reload countdown's accumulated time to its duration or beyond.
pub proof fn lemma_fireable_iff_reload_elapses(w: Weapon, delta: u64)
    requires
        w.inv(),
        w.initial_timer.finished,
    ensures
        weapon_fireable(w, delta) <==> w.reload_timer.elapsed + delta
            >= w.reload_timer.duration,
{
}

/// After the initial delay, while the cumulative elapsed time of a run
/// stays below what is left of the reload countdown, no update in the run
/// permits a shot.
pub proof fn lemma_reload_blocks_until_elapsed(w: Weapon, deltas: Seq<u64>)
    requires
        w.inv(),
        w.initial_timer.finished,
        w.reload_timer.elapsed + total_time(deltas) < w.reload_timer.duration,
    ensures
        forall|i: int| 0 <= i < deltas.len() ==> !weapon_run_results(w, deltas)[i],
    decreases deltas.len(),
{
    if deltas.len() > 0 {
        let rest = deltas.drop_first();
        lemma_total_time_nonneg(rest);
        let w1 = weapon_after_update(w, deltas[0]);
        lemma_run_results_len(w1, rest);
        lemma_reload_blocks_until_elapsed(w1, rest);
        assert forall|i: int| 0 <= i < deltas.len() implies !weapon_run_results(
            w,
            deltas,
        )[i] by {
            if i > 0 {
                assert(weapon_run_results(w, deltas)[i] == weapon_run_results(w1, rest)[i - 1]);
            }
        }
    }
}

/// An automatic weapon that fires re-arms its reload countdown within the
/// same update: the very next update already finds a fresh countdown over
/// the full reload duration.
pub proof fn lemma_automatic_rearms_immediately(w: Weapon, delta: u64)
    requires
        w.inv(),
        w.fire_mode is Automatic,
        weapon_fireable(w, delta),
    ensures
        weapon_after_update(w, delta).reload_timer == CountdownTimer::spec_new(
            w.reload_timer.duration,
        ),
{
}

/// With its initial delay elapsed and a fresh reload countdown, an
/// automatic weapon fires on every update whose delta equals the reload
/// duration: shots repeat with period equal to the reload time, and each
/// shot leaves the countdown fresh again.
pub proof fn lemma_automatic_fires_periodically(w: Weapon, deltas: Seq<u64>)
    requires
        w.inv(),
        w.fire_mode is Automatic,
        w.initial_timer.finished,
        w.reload_timer.elapsed == 0,
        forall|i: int| 0 <= i < deltas.len() ==> deltas[i] == w.reload_timer.duration,
    ensures
        forall|i: int| 0 <= i < deltas.len() ==> weapon_run_results(w, deltas)[i],
        weapon_run(w, deltas).reload_timer.elapsed == 0,
    decreases deltas.len(),
{
    if deltas.len() > 0 {
        let rest = deltas.drop_first();
        let w1 = weapon_after_update(w, deltas[0]);
        lemma_run_results_len(w1, rest);
        lemma_automatic_fires_periodically(w1, rest);
        assert forall|i: int| 0 <= i < deltas.len() implies weapon_run_results(
            w,
            deltas,
        )[i] by {
            if i > 0 {
                assert(weapon_run_results(w, deltas)[i] == weapon_run_results(w1, rest)[i - 1]);
            }
        }
    }
}

/// Once a manual weapon's reload countdown has finished, every further
/// update permits a shot and leaves the countdown finished, until some
/// external caller resets it.
pub proof fn lemma_manual_stays_ready(w: Weapon, deltas: Seq<u64>)
    requires
        w.inv(),
        w.fire_mode is Manual,
        w.initial_timer.finished,
        w.reload_timer.finished,
    ensures
        forall|i: int| 0 <= i < deltas.len() ==> weapon_run_results(w, deltas)[i],
        weapon_run(w, deltas).reload_timer.finished,
    decreases deltas.len(),
{
    if deltas.len() > 0 {
        let rest = deltas.drop_first();
        let w1 = weapon_after_update(w, deltas[0]);
        lemma_run_results_len(w1, rest);
        lemma_manual_stays_ready(w1, rest);
        assert forall|i: int| 0 <= i < deltas.len() implies weapon_run_results(
            w,
            deltas,
        )[i] by {
            if i > 0 {
                assert(weapon_run_results(w, deltas)[i] == weapon_run_results(w1, rest)[i - 1]);
            }
        }
    }
}

impl From<WeaponData> for Weapon {
    /// Builds the live weapon from its configuration record.
    fn from(value: WeaponData) -> (w: Weapon)
        ensures
            w == weapon_of_data(value),
            w.inv(),
    {
        Weapon {
            ammunition: value.ammunition,
            damage: value.damage,
            position: value.position,
            reload_timer: CountdownTimer::new(value.reload_time),
            initial_timer: CountdownTimer::new(value.initial_time),
            speed: value.speed,
            direction: value.direction,
            despawn_time: value.despawn_time,
            count: value.count,
            spread_weights: value.spread_weights,
            fire_mode: value.fire_mode,
            capacity: value.capacity,
            max_spread_arc: value.max_spread_arc,
            projectile_gap: value.projectile_gap,
        }
    }
}

impl vstd::std_specs::convert::FromSpecImpl<WeaponData> for Weapon {
    open spec fn obeys_from_spec() -> bool {
        true
    }

    open spec fn from_spec(v: WeaponData) -> Weapon {
        weapon_of_data(v)
    }
}

} // verus!

