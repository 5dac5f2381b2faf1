//! Runs of ticks: what holds of a session over any number of simulation
//! steps.

use vstd::prelude::*;
use crate::encounter::encounter_builds_up;
use crate::mode::{GameState, TransitionRequest};
use crate::movement::{lemma_idle_input_is_a_stop, Tick};
use crate::session::Session;

verus! {

/// The time that a run of ticks takes.
pub open spec fn total_duration(ticks: Seq<Tick>) -> int
    decreases ticks.len(),
{
    if ticks.len() == 0 {
        0
    } else {
        ticks[0].dt + total_duration(ticks.drop_first())
    }
}

impl Session {
    /// The session after a run of ticks, each applied to the result of the
    /// one before.
    pub open spec fn after_ticks(self, ticks: Seq<Tick>) -> Session
        decreases ticks.len(),
    {
        if ticks.len() == 0 {
            self
        } else {
            self.after_tick(ticks[0]).after_ticks(ticks.drop_first())
        }
    }

    /// How many of a run of ticks ask for a transition.
    pub open spec fn requests_emitted(self, ticks: Seq<Tick>) -> nat
        decreases ticks.len(),
    {
        if ticks.len() == 0 {
            0
        } else {
            let now: nat = if self.tick_request(ticks[0]) is Some {
                1
            } else {
                0
            };
            now + self.after_tick(ticks[0]).requests_emitted(ticks.drop_first())
        }
    }

    /// The actor's position changes in no tick of the run.
    pub open spec fn stands_still_through(self, ticks: Seq<Tick>) -> bool
        decreases ticks.len(),
    {
        ticks.len() == 0 || ((self.overworld_runs() ==> !self.moved_player(ticks[0]).just_moved)
            && self.after_tick(ticks[0]).stands_still_through(ticks.drop_first()))
    }

    /// In this tick the overworld runs and the actor, after the movement
    /// controller, has moved and stands inside an encounter zone.
    pub open spec fn moves_in_zone(self, tick: Tick) -> bool {
        self.overworld_runs() && encounter_builds_up(
            self.moved_player(tick),
            self.map.encounter_zones@,
        )
    }

    /// The actor moves inside an encounter zone in every tick of the run.
    pub open spec fn keeps_moving_in_zone(self, ticks: Seq<Tick>) -> bool
        decreases ticks.len(),
    {
        ticks.len() == 0 || (self.moves_in_zone(ticks[0]) && self.after_tick(ticks[0]).keeps_moving_in_zone(
            ticks.drop_first(),
        ))
    }
}

/// A run of ticks takes no negative time.
pub proof fn lemma_total_duration_nonnegative(ticks: Seq<Tick>)
    ensures
        0 <= total_duration(ticks),
    decreases ticks.len(),
{
    if ticks.len() > 0 {
        lemma_total_duration_nonnegative(ticks.drop_first());
    }
}

/// A tick keeps a session well formed and never changes its mode, its map
/// or the asset of its requests.
pub proof fn lemma_tick_keeps_session_well_formed(s: Session, tick: Tick)
    requires
        s.wf(),
    ensures
        s.after_tick(tick).wf(),
        s.after_tick(tick).mode == s.mode,
        s.after_tick(tick).map == s.map,
        s.after_tick(tick).transition_asset == s.transition_asset,
{
}

/// Ticks never change the mode, the map or the asset of the requests, and
/// keep a session well formed: the mode changes only when a transition is
/// performed.
pub proof fn lemma_ticks_keep_mode(s: Session, ticks: Seq<Tick>)
    requires
        s.wf(),
    ensures
        s.after_ticks(ticks).wf(),
        s.after_ticks(ticks).mode == s.mode,
        s.after_ticks(ticks).map == s.map,
        s.after_ticks(ticks).transition_asset == s.transition_asset,
    decreases ticks.len(),
{
    if ticks.len() > 0 {
        lemma_tick_keeps_session_well_formed(s, ticks[0]);
        lemma_ticks_keep_mode(s.after_tick(ticks[0]), ticks.drop_first());
    }
}

/// Outside the overworld no system runs: over any run of ticks the session
/// stays exactly as it is and no transition is asked for.
pub proof fn lemma_nothing_runs_outside_overworld(s: Session, ticks: Seq<Tick>)
    requires
        s.mode != GameState::Overworld,
    ensures
        s.after_ticks(ticks) == s,
        s.requests_emitted(ticks) == 0,
    decreases ticks.len(),
{
    if ticks.len() > 0 {
        lemma_nothing_runs_outside_overworld(s, ticks.drop_first());
    }
}

/// An actor that is not active stays where it is, keeps its encounter timer
/// and asks for nothing, over any run of ticks. After the encounter trigger
/// has fired, no second request follows until the overworld is resumed.
pub proof fn lemma_inactive_actor_requests_nothing(s: Session, ticks: Seq<Tick>)
    requires
        s.actor is Some,
        !s.actor->0.player.active,
    ensures
        s.requests_emitted(ticks) == 0,
        s.after_ticks(ticks).actor is Some,
        !s.after_ticks(ticks).actor->0.player.active,
        s.after_ticks(ticks).actor->0.player.position == s.actor->0.player.position,
        s.after_ticks(ticks).actor->0.tracker == s.actor->0.tracker,
    decreases ticks.len(),
{
    if ticks.len() > 0 {
        lemma_inactive_actor_requests_nothing(s.after_tick(ticks[0]), ticks.drop_first());
    }
}

/// An actor that does not move never triggers an encounter: over any run of
/// ticks in none of which its position changes, whatever keeps it in place
/// and wherever it stands, no transition is asked for and the encounter
/// timer stays as it is.
pub proof fn lemma_not_moving_never_triggers(s: Session, ticks: Seq<Tick>)
    requires
        s.actor is Some,
        s.stands_still_through(ticks),
    ensures
        s.requests_emitted(ticks) == 0,
        s.after_ticks(ticks).actor is Some,
        s.after_ticks(ticks).actor->0.player.position == s.actor->0.player.position,
        s.after_ticks(ticks).actor->0.player.active == s.actor->0.player.active,
        s.after_ticks(ticks).actor->0.tracker == s.actor->0.tracker,
    decreases ticks.len(),
{
    if ticks.len() > 0 {
        lemma_not_moving_never_triggers(s.after_tick(ticks[0]), ticks.drop_first());
    }
}

/// Standing still never triggers an encounter: over any run of ticks with no
/// movement key pressed, wherever the actor stands, no transition is asked
/// for, and position and encounter timer stay as they are.
pub proof fn lemma_standing_never_triggers(s: Session, ticks: Seq<Tick>)
    requires
        s.actor is Some,
        forall|i: int| 0 <= i < ticks.len() ==> (#[trigger] ticks[i]).input.idle(),
    ensures
        s.requests_emitted(ticks) == 0,
        s.after_ticks(ticks).actor is Some,
        s.after_ticks(ticks).actor->0.player.position == s.actor->0.player.position,
        s.after_ticks(ticks).actor->0.player.active == s.actor->0.player.active,
        s.after_ticks(ticks).actor->0.tracker == s.actor->0.tracker,
    decreases ticks.len(),
{
    if ticks.len() > 0 {
        let rest = ticks.drop_first();
        lemma_idle_input_is_a_stop(
            s.actor->0.player,
            s.map.obstacles@,
            ticks[0].input,
            ticks[0].dt,
        );
        assert forall|i: int| 0 <= i < rest.len() implies (#[trigger] rest[i]).input.idle() by {
            assert(rest[i] == ticks[i + 1]);
        }
        lemma_standing_never_triggers(s.after_tick(ticks[0]), rest);
    }
}

/// Moving inside an encounter zone triggers combat exactly once, in the tick
/// with which the moving time reaches the timer's threshold.
///
/// The actor moves inside an encounter zone through all of `moving` and
/// through `crossing`. The time on the timer and the time of `moving` stay
/// below the threshold; with `crossing` they reach it. Then no tick of
/// `moving` asks for anything, `crossing` asks for combat, the actor is no
/// longer active once `crossing` is over, and whatever ticks follow in
/// `later`, the whole run has asked exactly once.
pub proof fn lemma_encounter_triggers_once(
    s: Session,
    moving: Seq<Tick>,
    crossing: Tick,
    later: Seq<Tick>,
)
    requires
        s.keeps_moving_in_zone(moving.push(crossing)),
        s.actor is Some,
        s.actor->0.tracker.timer.elapsed + total_duration(moving)
            < s.actor->0.tracker.timer.threshold,
        s.actor->0.tracker.timer.elapsed + total_duration(moving) + crossing.dt
            >= s.actor->0.tracker.timer.threshold,
    ensures
        s.requests_emitted(moving) == 0,
        s.after_ticks(moving).tick_request(crossing) == Some(
            TransitionRequest { target: GameState::Combat, asset: s.transition_asset },
        ),
        s.after_ticks(moving.push(crossing)).actor is Some,
        !s.after_ticks(moving.push(crossing)).actor->0.player.active,
        s.requests_emitted(moving.push(crossing) + later) == 1,
    decreases moving.len(),
{
    let all = moving.push(crossing);
    if moving.len() == 0 {
        let after = s.after_tick(crossing);
        assert(all[0] == crossing);
        assert(all.drop_first() =~= Seq::<Tick>::empty());
        assert((all + later)[0] == crossing);
        assert((all + later).drop_first() =~= later);
        assert(s.moves_in_zone(crossing));
        assert(s.tick_request(crossing) is Some);
        assert(after.after_ticks(all.drop_first()) == after);
        lemma_inactive_actor_requests_nothing(after, later);
    } else {
        let first = moving[0];
        let rest = moving.drop_first();
        let after = s.after_tick(first);
        assert(all[0] == first);
        assert(all.drop_first() =~= rest.push(crossing));
        assert((all + later)[0] == first);
        assert((all + later).drop_first() =~= rest.push(crossing) + later);
        assert(s.moves_in_zone(first));
        lemma_total_duration_nonnegative(rest);
        assert(s.tick_request(first) is None);
        lemma_encounter_triggers_once(after, rest, crossing, later);
    }
}

} // verus!
