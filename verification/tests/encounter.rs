use overworld::encounter::{player_encounter_checking, EncounterTimer, EncounterTracker};
use overworld::geometry::Position;
use overworld::mode::{GameState, TransitionRequest};
use overworld::player::{FacingDirection, Player};
use overworld::tilemap::StaticMap;

const SECOND: u64 = 1_000_000_000;

fn at(x: i64, y: i64) -> Position {
    Position { x, y }
}

fn walker(x: i64, y: i64, just_moved: bool) -> Player {
    Player {
        active: true,
        speed: 3,
        just_moved,
        exp: 0,
        position: at(x, y),
        facing: FacingDirection::Right,
    }
}

fn tracker(elapsed: u64) -> EncounterTracker {
    EncounterTracker { timer: EncounterTimer { elapsed, threshold: SECOND, repeating: true } }
}

fn grass() -> StaticMap {
    StaticMap::new(Vec::new(), vec![at(0, 0), at(1000, 0)])
}

#[test]
fn new_timer_starts_at_zero() {
    assert_eq!(
        EncounterTimer::new(SECOND, true),
        EncounterTimer { elapsed: 0, threshold: SECOND, repeating: true }
    );
    assert_eq!(
        EncounterTimer::new(5, false),
        EncounterTimer { elapsed: 0, threshold: 5, repeating: false }
    );
}

#[test]
fn timer_accumulates_below_its_threshold() {
    let mut timer = EncounterTimer::new(SECOND, true);
    assert!(!timer.advance(400_000_000));
    assert_eq!(timer.elapsed, 400_000_000);
    assert!(!timer.advance(599_999_999));
    assert_eq!(timer.elapsed, 999_999_999);
    assert!(!timer.advance(0));
    assert_eq!(timer.elapsed, 999_999_999);
}

#[test]
fn timer_elapses_on_reaching_its_threshold() {
    let mut timer = EncounterTimer::new(SECOND, true);
    assert!(!timer.advance(999_999_999));
    assert!(timer.advance(1));
    assert_eq!(timer, EncounterTimer { elapsed: 0, threshold: SECOND, repeating: true });
}

#[test]
fn repeating_timer_starts_again_from_zero() {
    let mut timer = EncounterTimer::new(SECOND, true);
    assert!(timer.advance(SECOND + SECOND / 2));
    assert_eq!(timer.elapsed, 0);
    assert!(!timer.advance(SECOND / 2));
    assert_eq!(timer.elapsed, SECOND / 2);
    assert!(timer.advance(SECOND / 2));
    assert_eq!(timer.elapsed, 0);
}

#[test]
fn timer_that_does_not_repeat_elapses_once() {
    let mut timer = EncounterTimer::new(SECOND, false);
    assert!(!timer.advance(SECOND / 2));
    assert!(timer.advance(SECOND));
    assert_eq!(timer.elapsed, SECOND);
    assert!(!timer.advance(SECOND));
    assert!(!timer.advance(0));
    assert_eq!(timer, EncounterTimer { elapsed: SECOND, threshold: SECOND, repeating: false });
}

#[test]
fn reset_lets_a_finished_timer_run_again() {
    let mut timer = EncounterTimer::new(SECOND, false);
    assert!(timer.advance(SECOND));
    timer.reset();
    assert_eq!(timer, EncounterTimer { elapsed: 0, threshold: SECOND, repeating: false });
    assert!(!timer.advance(SECOND - 1));
    assert!(timer.advance(1));
}

#[test]
fn reset_discards_what_has_accumulated() {
    let mut timer = EncounterTimer::new(SECOND, true);
    assert!(!timer.advance(SECOND - 1));
    timer.reset();
    assert_eq!(timer.elapsed, 0);
    assert!(!timer.advance(SECOND - 1));
}

#[test]
fn timer_with_no_threshold_elapses_on_every_advance() {
    let mut timer = EncounterTimer::new(0, true);
    assert!(timer.advance(0));
    assert!(timer.advance(17));
    assert_eq!(timer.elapsed, 0);
    let mut once = EncounterTimer::new(0, false);
    assert!(!once.advance(17));
    assert_eq!(once.elapsed, 0);
}

#[test]
fn timer_survives_the_longest_durations() {
    let mut timer = EncounterTimer { elapsed: u64::MAX - 1, threshold: u64::MAX, repeating: true };
    assert!(timer.advance(u64::MAX));
    assert_eq!(timer.elapsed, 0);
    let mut timer = EncounterTimer { elapsed: 5, threshold: u64::MAX, repeating: false };
    assert!(!timer.advance(u64::MAX - 6));
    assert_eq!(timer.elapsed, u64::MAX - 1);
    assert!(timer.advance(u64::MAX));
    assert_eq!(timer.elapsed, u64::MAX);
}

#[test]
fn standing_in_a_zone_builds_nothing_up() {
    let mut player = walker(0, 0, false);
    let mut tracker = tracker(900_000_000);
    for dt in [0, SECOND, 10 * SECOND, u64::MAX] {
        let request = player_encounter_checking(&mut player, &mut tracker, &grass(), dt, Some(1));
        assert_eq!(request, None);
        assert_eq!(tracker.timer.elapsed, 900_000_000);
        assert_eq!(player, walker(0, 0, false));
    }
}

#[test]
fn moving_outside_every_zone_builds_nothing_up() {
    let mut player = walker(5000, 5000, true);
    let mut tracker = tracker(900_000_000);
    let request = player_encounter_checking(&mut player, &mut tracker, &grass(), SECOND, Some(1));
    assert_eq!(request, None);
    assert_eq!(tracker.timer.elapsed, 900_000_000);
    assert!(player.active);
}

#[test]
fn moving_where_there_are_no_zones_builds_nothing_up() {
    let mut player = walker(0, 0, true);
    let mut tracker = tracker(0);
    let bare = StaticMap::new(vec![at(0, 0)], Vec::new());
    let request = player_encounter_checking(&mut player, &mut tracker, &bare, SECOND, None);
    assert_eq!(request, None);
    assert_eq!(tracker.timer.elapsed, 0);
}

#[test]
fn moving_in_a_zone_advances_the_timer() {
    let mut player = walker(1900, 0, true);
    let mut tracker = tracker(100);
    let request = player_encounter_checking(&mut player, &mut tracker, &grass(), 250, Some(1));
    assert_eq!(request, None);
    assert_eq!(tracker.timer.elapsed, 350);
    assert_eq!(player, walker(1900, 0, true));
}

#[test]
fn reaching_the_threshold_asks_for_combat() {
    let mut player = walker(0, 0, true);
    let mut tracker = tracker(900_000_000);
    let request =
        player_encounter_checking(&mut player, &mut tracker, &grass(), 100_000_000, Some(9));
    assert_eq!(request, Some(TransitionRequest { target: GameState::Combat, asset: Some(9) }));
    assert!(!player.active);
    assert_eq!(tracker.timer.elapsed, 0);
    assert_eq!(player.position, at(0, 0));
    assert!(player.just_moved);
}

#[test]
fn request_carries_whatever_asset_it_is_given() {
    let mut player = walker(0, 0, true);
    let mut tracker = tracker(0);
    let request = player_encounter_checking(&mut player, &mut tracker, &grass(), SECOND, None);
    assert_eq!(request, Some(TransitionRequest { target: GameState::Combat, asset: None }));
}

#[test]
fn inactive_actor_triggers_nothing() {
    let mut player = walker(0, 0, true);
    player.active = false;
    let mut tracker = tracker(900_000_000);
    let request = player_encounter_checking(&mut player, &mut tracker, &grass(), SECOND, Some(1));
    assert_eq!(request, None);
    assert_eq!(tracker.timer.elapsed, 900_000_000);
    assert!(!player.active);
}

#[test]
fn spent_timer_that_does_not_repeat_triggers_nothing_more() {
    let mut player = walker(0, 0, true);
    let mut tracker =
        EncounterTracker { timer: EncounterTimer { elapsed: 0, threshold: SECOND, repeating: false } };
    assert!(player_encounter_checking(&mut player, &mut tracker, &grass(), SECOND, None).is_some());
    player.active = true;
    assert_eq!(player_encounter_checking(&mut player, &mut tracker, &grass(), SECOND, None), None);
    assert!(player.active);
}
