//! The session: the mode state machine, the one actor it owns, the camera
//! that follows the actor, and the per-tick dispatch of the overworld
//! systems in their fixed order.

use vstd::prelude::*;
use crate::encounter::{
    player_after_check, player_encounter_checking, request_of_check, tracker_after_check,
    EncounterTimer, EncounterTracker,
};
use crate::geometry::{Position, TILE_SIZE};
use crate::mode::{GameState, TransitionRequest};
use crate::movement::{after_movement, player_movement, Tick, NANOS_PER_SECOND};
use crate::player::{CombatStats, FacingDirection, Player};
use crate::tilemap::StaticMap;
use crate::visibility::{children_set_to, hide_player, show_player, ChildEntity, Presentation};

verus! {

/// Where the actor is placed when it is spawned.
pub const SPAWN_X: i64 = 2 * TILE_SIZE;

pub const SPAWN_Y: i64 = -2 * TILE_SIZE;

/// The actor's speed in cells per second.
pub const PLAYER_SPEED: u32 = 3;

/// Moving time inside encounter zones after which combat is asked for.
pub const ENCOUNTER_THRESHOLD: u64 = NANOS_PER_SECOND;

/// The actor with everything attached to it.
#[derive(Clone, Debug, PartialEq, Eq)]
pub struct Actor {
    pub player: Player,
    pub tracker: EncounterTracker,
    pub stats: CombatStats,
    pub presentation: Presentation,
}

/// The player of a freshly spawned actor.
pub open spec fn spawned_player() -> Player {
    Player {
        active: true,
        speed: PLAYER_SPEED,
        just_moved: false,
        exp: 0,
        position: Position { x: SPAWN_X, y: SPAWN_Y },
        facing: FacingDirection::Down,
    }
}

/// The encounter tracker of a freshly spawned actor: a repeating timer at
/// zero.
pub open spec fn spawned_tracker() -> EncounterTracker {
    EncounterTracker {
        timer: EncounterTimer { elapsed: 0, threshold: ENCOUNTER_THRESHOLD, repeating: true },
    }
}

/// The statistics of a freshly spawned actor.
pub open spec fn spawned_stats() -> CombatStats {
    CombatStats { health: 10, max_health: 10, attack: 2, defence: 1 }
}

/// Whether `actor` is as `spawn_player` makes it.
pub open spec fn freshly_spawned(actor: Actor) -> bool {
    &&& actor.player == spawned_player()
    &&& actor.tracker == spawned_tracker()
    &&& actor.stats == spawned_stats()
    &&& actor.presentation.visible
    &&& actor.presentation.children@ == Seq::<ChildEntity>::empty()
}

/// Makes the actor in its initial state: active, visible, at the spawn
/// point, facing down, with no experience.
pub fn spawn_player() -> (actor: Actor)
    ensures
        freshly_spawned(actor),
{
    Actor {
        player: Player {
            active: true,
            speed: PLAYER_SPEED,
            just_moved: false,
            exp: 0,
            position: Position { x: SPAWN_X, y: SPAWN_Y },
            facing: FacingDirection::Down,
        },
        tracker: EncounterTracker { timer: EncounterTimer::new(ENCOUNTER_THRESHOLD, true) },
        stats: CombatStats { health: 10, max_health: 10, attack: 2, defence: 1 },
        presentation: Presentation::new(),
    }
}

impl Actor {
    /// The actor as it is while the overworld is paused: not active, hidden
    /// together with its children, everything else kept.
    pub open spec fn is_paused_form_of(self, before: Actor) -> bool {
        &&& self.player == (Player { active: false, ..before.player })
        &&& self.tracker == before.tracker
        &&& self.stats == before.stats
        &&& !self.presentation.visible
        &&& self.presentation.children@ == children_set_to(before.presentation.children@, false)
    }

    /// The actor as it is when the overworld resumes: active, shown
    /// together with its children, everything else kept.
    pub open spec fn is_resumed_form_of(self, before: Actor) -> bool {
        &&& self.player == (Player { active: true, ..before.player })
        &&& self.tracker == before.tracker
        &&& self.stats == before.stats
        &&& self.presentation.visible
        &&& self.presentation.children@ == children_set_to(before.presentation.children@, true)
    }

    /// Suspends the actor for the time the overworld is paused: hides it
    /// and its children and stops it from processing input. Position,
    /// experience, statistics and the encounter timer are kept.
    pub fn pause(&mut self)
        ensures
            final(self).is_paused_form_of(*old(self)),
    {
        self.player.active = false;
        hide_player(&mut self.presentation);
    }

    /// Brings the actor back when the overworld resumes: shows it and its
    /// children and lets it process input again.
    pub fn resume(&mut self)
        ensures
            final(self).is_resumed_form_of(*old(self)),
    {
        show_player(&mut self.player, &mut self.presentation);
    }
}

/// Puts the camera where the actor is.
pub fn camera_follow(player: &Player, camera: &mut Position)
    ensures
        *final(camera) == player.position,
{
    *camera = player.position;
}

/// The changes of mode that a session performs: from the start menu into
/// the overworld, from the overworld into combat, and from combat back.
pub open spec fn transition_allowed(from: GameState, to: GameState) -> bool {
    ||| from == GameState::StartMenu && to == GameState::Overworld
    ||| from == GameState::Overworld && to == GameState::Combat
    ||| from == GameState::Combat && to == GameState::Overworld
}

/// One session of play.
#[derive(Clone, Debug, PartialEq, Eq)]
pub struct Session {
    pub mode: GameState,
    /// The one actor, once the overworld has been entered.
    pub actor: Option<Actor>,
    pub camera: Position,
    pub map: StaticMap,
    /// The asset that transition requests carry to the transition effect.
    pub transition_asset: Option<u64>,
}

impl Session {
    /// Once the start menu is left there is an actor; outside the overworld
    /// an actor, if there is one, is not active.
    pub open spec fn wf(self) -> bool {
        &&& self.mode != GameState::StartMenu ==> self.actor is Some
        &&& self.mode != GameState::Overworld && self.actor is Some
            ==> !self.actor->0.player.active
    }

    /// Whether the overworld systems run in this session's state.
    pub open spec fn overworld_runs(self) -> bool {
        self.mode == GameState::Overworld && self.actor is Some
    }

    /// The actor's player after the movement controller has run for `tick`.
    pub open spec fn moved_player(self, tick: Tick) -> Player
        recommends
            self.actor is Some,
    {
        after_movement(self.actor->0.player, self.map.obstacles@, tick.input, tick.dt)
    }

    /// The session after one tick. Outside the overworld nothing runs and
    /// nothing changes. In the overworld the movement controller runs first;
    /// the encounter trigger and the camera then see its result.
    pub open spec fn after_tick(self, tick: Tick) -> Session {
        if self.overworld_runs() {
            let actor = self.actor->0;
            let moved = self.moved_player(tick);
            let zones = self.map.encounter_zones@;
            Session {
                actor: Some(
                    Actor {
                        player: player_after_check(moved, actor.tracker, zones, tick.dt),
                        tracker: tracker_after_check(moved, actor.tracker, zones, tick.dt),
                        ..actor
                    },
                ),
                camera: moved.position,
                ..self
            }
        } else {
            self
        }
    }

    /// What one tick asks for: combat if the encounter trigger fired in the
    /// overworld, else nothing.
    pub open spec fn tick_request(self, tick: Tick) -> Option<TransitionRequest> {
        if self.overworld_runs() {
            request_of_check(
                self.moved_player(tick),
                self.actor->0.tracker,
                self.map.encounter_zones@,
                tick.dt,
                self.transition_asset,
            )
        } else {
            None
        }
    }

    /// A session at the start menu, with no actor yet and the camera at the
    /// origin.
    pub fn new(map: StaticMap, transition_asset: Option<u64>) -> (session: Session)
        ensures
            session.mode == GameState::StartMenu,
            session.actor is None,
            session.camera == (Position { x: 0, y: 0 }),
            session.map == map,
            session.transition_asset == transition_asset,
            session.wf(),
    {
        Session {
            mode: GameState::StartMenu,
            actor: None,
            camera: Position { x: 0, y: 0 },
            map,
            transition_asset,
        }
    }

    /// Tests whether the session is well formed.
    pub fn is_well_formed(&self) -> (ok: bool)
        ensures
            ok == self.wf(),
    {
        match &self.actor {
            Some(actor) => self.mode == GameState::Overworld || !actor.player.active,
            None => self.mode == GameState::StartMenu,
        }
    }

    /// The mode that is active.
    pub fn active_mode(&self) -> (mode: GameState)
        ensures
            mode == self.mode,
    {
        self.mode
    }

    /// Runs one simulation tick. While the overworld is the active mode, the
    /// movement controller runs, then the encounter trigger, then the camera
    /// tracker. In any other mode nothing runs. Returns the transition that
    /// the tick asks for; the session does not perform it.
    pub fn tick(&mut self, tick: Tick) -> (request: Option<TransitionRequest>)
        requires
            old(self).wf(),
        ensures
            *final(self) == old(self).after_tick(tick),
            request == old(self).tick_request(tick),
            final(self).wf(),
            old(self).mode != GameState::Overworld
                ==> *final(self) == *old(self) && request is None,
            final(self).mode == old(self).mode,
            old(self).mode == GameState::Overworld
                ==> final(self).camera == final(self).actor->0.player.position,
    {
        if self.mode != GameState::Overworld {
            return None;
        }
        let mut actor: Actor = self.actor.take().unwrap();
        player_movement(&mut actor.player, &self.map, tick.input, tick.dt);
        let request: Option<TransitionRequest> = player_encounter_checking(
            &mut actor.player,
            &mut actor.tracker,
            &self.map,
            tick.dt,
            self.transition_asset,
        );
        camera_follow(&actor.player, &mut self.camera);
        self.actor = Some(actor);
        request
    }

    /// What entering the overworld from the start menu does to the actor:
    /// one is spawned unless the session already holds one, which is kept
    /// as it is.
    pub open spec fn entered_overworld_from(self, before: Session) -> bool {
        &&& self.actor is Some
        &&& before.actor is Some ==> self.actor == before.actor
        &&& before.actor is None ==> freshly_spawned(self.actor->0)
    }

    /// Performs a change of mode, with the hook that belongs to it.
    ///
    /// Entering the overworld from the start menu spawns the actor if there
    /// is none. Leaving the overworld for combat pauses the actor; coming
    /// back from combat resumes it. Any other change is refused: the
    /// session stays as it is and `false` is returned.
    pub fn apply_transition(&mut self, target: GameState) -> (applied: bool)
        requires
            old(self).wf(),
        ensures
            applied == transition_allowed(old(self).mode, target),
            !applied ==> *final(self) == *old(self),
            applied ==> final(self).mode == target,
            final(self).camera == old(self).camera,
            final(self).map == old(self).map,
            final(self).transition_asset == old(self).transition_asset,
            applied && old(self).mode == GameState::StartMenu
                ==> final(self).entered_overworld_from(*old(self)),
            applied && old(self).mode == GameState::Overworld ==> final(self).actor is Some
                && final(self).actor->0.is_paused_form_of(old(self).actor->0),
            applied && old(self).mode == GameState::Combat ==> final(self).actor is Some
                && final(self).actor->0.is_resumed_form_of(old(self).actor->0),
            final(self).wf(),
    {
        match (self.mode, target) {
            (GameState::StartMenu, GameState::Overworld) => {
                if self.actor.is_none() {
                    self.actor = Some(spawn_player());
                }
                self.mode = GameState::Overworld;
                true
            },
            (GameState::Overworld, GameState::Combat) => {
                let mut actor: Actor = self.actor.take().unwrap();
                actor.pause();
                self.actor = Some(actor);
                self.mode = GameState::Combat;
                true
            },
            (GameState::Combat, GameState::Overworld) => {
                let mut actor: Actor = self.actor.take().unwrap();
                actor.resume();
                self.actor = Some(actor);
                self.mode = GameState::Overworld;
                true
            },
            _ => false,
        }
    }
}

} // verus!
