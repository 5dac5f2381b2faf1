//! The encounter trigger: a timer that runs only while the actor moves
//! inside an encounter zone, and asks for combat when it elapses.

use vstd::prelude::*;
use crate::geometry::{hits_any, Position};
use crate::mode::{GameState, TransitionRequest};
use crate::player::Player;
use crate::tilemap::StaticMap;

verus! {

/// An accumulator of elapsed time with a threshold, in nanoseconds.
///
/// A repeating timer starts again from zero each time it elapses. One that
/// does not repeat elapses once, then rests at its threshold until `reset`.
#[derive(Clone, Copy, Debug, PartialEq, Eq, Structural)]
pub struct EncounterTimer {
    pub elapsed: u64,
    pub threshold: u64,
    pub repeating: bool,
}

impl EncounterTimer {
    /// The accumulator has reached the threshold.
    pub open spec fn finished(self) -> bool {
        self.elapsed >= self.threshold
    }

    /// Whether the timer runs at all: a timer that does not repeat stops
    /// once it has finished.
    pub open spec fn running(self) -> bool {
        self.repeating || !self.finished()
    }

    /// Whether advancing by `delta` brings a running timer to its threshold.
    pub open spec fn elapses_after(self, delta: u64) -> bool {
        self.running() && self.elapsed + delta >= self.threshold
    }

    /// The timer after advancing by `delta`.
    pub open spec fn advanced(self, delta: u64) -> EncounterTimer {
        if !self.running() {
            self
        } else if self.elapsed + delta >= self.threshold {
            EncounterTimer {
                elapsed: if self.repeating {
                    0
                } else {
                    self.threshold
                },
                ..self
            }
        } else {
            EncounterTimer { elapsed: (self.elapsed + delta) as u64, ..self }
        }
    }

    /// A timer at zero.
    pub fn new(threshold: u64, repeating: bool) -> (timer: EncounterTimer)
        ensures
            timer == (EncounterTimer { elapsed: 0, threshold, repeating }),
    {
        EncounterTimer { elapsed: 0, threshold, repeating }
    }

    /// Advances the timer by `delta` and tells whether it elapsed just now.
    pub fn advance(&mut self, delta: u64) -> (just_elapsed: bool)
        ensures
            *final(self) == old(self).advanced(delta),
            just_elapsed == old(self).elapses_after(delta),
    {
        if !self.repeating && self.elapsed >= self.threshold {
            return false;
        }
        let sum: Option<u64> = self.elapsed.checked_add(delta);
        let reached: bool = match sum {
            Some(total) => total >= self.threshold,
            None => true,
        };
        if reached {
            self.elapsed = if self.repeating {
                0
            } else {
                self.threshold
            };
            true
        } else {
            self.elapsed = sum.unwrap();
            false
        }
    }

    /// Sets the accumulator back to zero.
    pub fn reset(&mut self)
        ensures
            *final(self) == (EncounterTimer { elapsed: 0, ..*old(self) }),
    {
        self.elapsed = 0;
    }
}

/// The sum of a run of durations.
pub open spec fn total_time(deltas: Seq<u64>) -> int
    decreases deltas.len(),
{
    if deltas.len() == 0 {
        0
    } else {
        total_time(deltas.drop_last()) + deltas.last()
    }
}

/// The timer after advancing by each of `deltas` in turn.
pub open spec fn advanced_through(timer: EncounterTimer, deltas: Seq<u64>) -> EncounterTimer
    decreases deltas.len(),
{
    if deltas.len() == 0 {
        timer
    } else {
        advanced_through(timer, deltas.drop_last()).advanced(deltas.last())
    }
}

/// How many of the advances by `deltas` made the timer elapse.
pub open spec fn times_elapsed(timer: EncounterTimer, deltas: Seq<u64>) -> nat
    decreases deltas.len(),
{
    if deltas.len() == 0 {
        0
    } else {
        let before = advanced_through(timer, deltas.drop_last());
        times_elapsed(timer, deltas.drop_last()) + if before.elapses_after(deltas.last()) {
            1nat
        } else {
            0nat
        }
    }
}

/// While the accumulated time stays below the threshold the timer holds
/// exactly the sum of what it was advanced by, and has not elapsed.
pub proof fn lemma_timer_accumulates(timer: EncounterTimer, deltas: Seq<u64>)
    requires
        timer.elapsed + total_time(deltas) < timer.threshold,
    ensures
        advanced_through(timer, deltas) == (EncounterTimer {
            elapsed: (timer.elapsed + total_time(deltas)) as u64,
            ..timer
        }),
        times_elapsed(timer, deltas) == 0,
        0 <= total_time(deltas),
    decreases deltas.len(),
{
    if deltas.len() > 0 {
        lemma_total_time_nonnegative(deltas.drop_last());
        lemma_timer_accumulates(timer, deltas.drop_last());
    }
}

/// A sum of durations is not negative.
pub proof fn lemma_total_time_nonnegative(deltas: Seq<u64>)
    ensures
        0 <= total_time(deltas),
    decreases deltas.len(),
{
    if deltas.len() > 0 {
        lemma_total_time_nonnegative(deltas.drop_last());
    }
}

/// The timer elapses exactly once, in the advance with which the accumulated
/// time reaches the threshold; a repeating timer is then back at zero.
pub proof fn lemma_timer_elapses_at_threshold(timer: EncounterTimer, deltas: Seq<u64>, last: u64)
    requires
        timer.elapsed + total_time(deltas) < timer.threshold,
        timer.elapsed + total_time(deltas) + last >= timer.threshold,
    ensures
        advanced_through(timer, deltas).elapses_after(last),
        times_elapsed(timer, deltas.push(last)) == 1,
        advanced_through(timer, deltas.push(last)) == (EncounterTimer {
            elapsed: if timer.repeating {
                0
            } else {
                timer.threshold
            },
            ..timer
        }),
{
    lemma_timer_accumulates(timer, deltas);
    assert(deltas.push(last).drop_last() =~= deltas);
}

/// The timer of the actor's encounters.
#[derive(Clone, Copy, Debug, PartialEq, Eq, Structural)]
pub struct EncounterTracker {
    pub timer: EncounterTimer,
}

/// The condition under which the encounter timer runs: the actor is active,
/// moved in this tick and stands on an encounter zone cell.
pub open spec fn encounter_builds_up(player: Player, zones: Seq<Position>) -> bool {
    player.active && player.just_moved && hits_any(zones, player.position@)
}

/// Whether this tick's check asks for combat: the timer runs and elapses
/// with this tick's duration.
pub open spec fn encounter_fires(
    player: Player,
    tracker: EncounterTracker,
    zones: Seq<Position>,
    dt: u64,
) -> bool {
    encounter_builds_up(player, zones) && tracker.timer.elapses_after(dt)
}

/// The tracker after this tick's check: advanced by `dt` if the timer
/// runs, untouched otherwise.
pub open spec fn tracker_after_check(
    player: Player,
    tracker: EncounterTracker,
    zones: Seq<Position>,
    dt: u64,
) -> EncounterTracker {
    if encounter_builds_up(player, zones) {
        EncounterTracker { timer: tracker.timer.advanced(dt) }
    } else {
        tracker
    }
}

/// The actor after this tick's check: no longer active if combat was asked
/// for, unchanged otherwise.
pub open spec fn player_after_check(
    player: Player,
    tracker: EncounterTracker,
    zones: Seq<Position>,
    dt: u64,
) -> Player {
    if encounter_fires(player, tracker, zones, dt) {
        Player { active: false, ..player }
    } else {
        player
    }
}

/// What this tick's check asks for: combat, with the asset for the
/// transition effect, or nothing.
pub open spec fn request_of_check(
    player: Player,
    tracker: EncounterTracker,
    zones: Seq<Position>,
    dt: u64,
    asset: Option<u64>,
) -> Option<TransitionRequest> {
    if encounter_fires(player, tracker, zones, dt) {
        Some(TransitionRequest { target: GameState::Combat, asset })
    } else {
        None
    }
}

/// Runs the encounter trigger for one tick of `dt` nanoseconds, after the
/// movement controller. `asset` is the handle that a request carries to the
/// transition effect.
pub fn player_encounter_checking(
    player: &mut Player,
    tracker: &mut EncounterTracker,
    map: &StaticMap,
    dt: u64,
    asset: Option<u64>,
) -> (request: Option<TransitionRequest>)
    ensures
        *final(tracker) == tracker_after_check(*old(player), *old(tracker), map.encounter_zones@, dt),
        *final(player) == player_after_check(*old(player), *old(tracker), map.encounter_zones@, dt),
        request == request_of_check(*old(player), *old(tracker), map.encounter_zones@, dt, asset),
        !old(player).just_moved
            ==> request is None && *final(tracker) == *old(tracker) && *final(player) == *old(player),
        request is Some ==> !final(player).active,
{
    if player.active && player.just_moved && map.in_encounter_zone(player.position) {
        if tracker.timer.advance(dt) {
            player.active = false;
            return Some(TransitionRequest { target: GameState::Combat, asset });
        }
    }
    None
}

} // verus!
