use sprite_animation::animator::AnimatorState;
use sprite_animation::catalog::AnimationCatalog;
use sprite_animation::defs::{next_frame, AnimError, AnimationDef};

fn def(frame_duration: u64, start: u64, end: u64, looping: bool) -> AnimationDef {
    AnimationDef::new(frame_duration, start, end, looping).unwrap()
}

fn idle_catalog() -> AnimationCatalog {
    AnimationCatalog::new(vec![("Idle".to_string(), def(100, 0, 3, true))]).unwrap()
}

fn idle_run_catalog() -> AnimationCatalog {
    AnimationCatalog::new(vec![
        ("Idle".to_string(), def(100, 0, 3, true)),
        ("Run".to_string(), def(50, 0, 5, true)),
    ])
    .unwrap()
}

#[test]
fn scenario_first_tick_resolves_then_waits() {
    let mut state = AnimatorState::new(idle_catalog());
    assert_eq!(state.current_frame, 0);
    assert_eq!(state.timer, 0);
    // The zero timer forces a resolution on the first tick.
    assert_eq!(state.advance(50), Ok(Some(1)));
    assert_eq!(state.timer, 100);
    assert_eq!(state.current_frame, 1);
    // Half the frame duration later nothing changes yet.
    assert_eq!(state.advance(50), Ok(None));
    assert_eq!(state.timer, 50);
    assert_eq!(state.current_frame, 1);
}

#[test]
fn scenario_wraps_after_last_frame() {
    let mut state = AnimatorState::new(idle_catalog());
    let mut frames: Vec<Option<u64>> = Vec::new();
    for _ in 0..4 {
        frames.push(state.advance(100).unwrap());
    }
    assert_eq!(frames, vec![Some(1), Some(2), Some(3), Some(0)]);
}

#[test]
fn scenario_transition_to_run() {
    let mut state = AnimatorState::new(idle_run_catalog());
    assert_eq!(state.advance(100), Ok(Some(1)));
    assert_eq!(state.select_state("Run"), Ok(true));
    assert_eq!(state.current_state, "Run");
    assert_eq!(state.current_frame, 0);
    assert_eq!(state.timer, 0);
}

#[test]
fn scenario_nonlooping_holds_at_end() {
    let catalog =
        AnimationCatalog::new(vec![("Idle".to_string(), def(100, 0, 2, false))]).unwrap();
    let mut state = AnimatorState::new(catalog);
    assert_eq!(state.advance(100), Ok(Some(1)));
    assert_eq!(state.advance(100), Ok(Some(2)));
    // Once the last frame is reached it holds, whatever time elapses.
    assert_eq!(state.advance(100), Ok(Some(2)));
    assert_eq!(state.advance(1_000_000), Ok(Some(2)));
    assert_eq!(state.advance(7), Ok(None));
    assert_eq!(state.current_frame, 2);
}

#[test]
fn scenario_unknown_desired_rejected() {
    let mut state = AnimatorState::new(idle_run_catalog());
    state.advance(100).unwrap();
    let frame = state.current_frame;
    let timer = state.timer;
    assert_eq!(state.select_state("Fly"), Err(AnimError::UnknownState));
    assert_eq!(state.current_state, "Idle");
    assert_eq!(state.current_frame, frame);
    assert_eq!(state.timer, timer);
}

#[test]
fn invalid_definition_empty_range() {
    assert_eq!(
        AnimationDef::new(100, 3, 2, true),
        Err(AnimError::InvalidDefinition)
    );
}

#[test]
fn invalid_definition_zero_duration() {
    assert_eq!(
        AnimationDef::new(0, 0, 3, true),
        Err(AnimError::InvalidDefinition)
    );
    assert!(!AnimationDef { frame_duration: 0, start: 0, end: 3, looping: true }.is_valid());
    assert!(def(100, 0, 3, true).is_valid());
}

#[test]
fn catalog_rejects_invalid_definition() {
    let bad = AnimationDef { frame_duration: 100, start: 4, end: 1, looping: true };
    let r = AnimationCatalog::new(vec![
        ("Idle".to_string(), def(100, 0, 3, true)),
        ("Broken".to_string(), bad),
    ]);
    assert_eq!(r.err(), Some(AnimError::InvalidDefinition));
}

#[test]
fn catalog_last_write_wins() {
    let catalog = AnimationCatalog::new(vec![
        ("Idle".to_string(), def(100, 0, 3, true)),
        ("Idle".to_string(), def(70, 1, 4, false)),
    ])
    .unwrap();
    assert_eq!(catalog.get("Idle"), Some(def(70, 1, 4, false)));
}

#[test]
fn catalog_get_unknown_is_none() {
    assert_eq!(idle_catalog().get("Fly"), None);
    assert_eq!(idle_catalog().get(""), None);
}

#[test]
fn advance_with_unknown_current_state_signals_and_skips() {
    // A catalog without "Idle": the freshly spawned state is unknown.
    let catalog =
        AnimationCatalog::new(vec![("Run".to_string(), def(50, 0, 5, true))]).unwrap();
    let mut state = AnimatorState::new(catalog);
    assert_eq!(state.advance(100), Err(AnimError::UnknownState));
    assert_eq!(state.current_state, "Idle");
    assert_eq!(state.current_frame, 0);
    assert_eq!(state.timer, 0);
}

#[test]
fn cycle_closure_on_offset_range() {
    // Four frames on 2..=5: four expiry ticks from `start` come back to it.
    let catalog =
        AnimationCatalog::new(vec![("Spin".to_string(), def(10, 2, 5, true))]).unwrap();
    let mut state = AnimatorState {
        catalog,
        current_state: "Spin".to_string(),
        current_frame: 2,
        timer: 10,
    };
    let mut frames: Vec<Option<u64>> = Vec::new();
    for _ in 0..4 {
        frames.push(state.advance(10).unwrap());
    }
    assert_eq!(frames, vec![Some(3), Some(4), Some(5), Some(2)]);
    assert_eq!(state.current_frame, 2);
}

#[test]
fn select_same_state_is_noop() {
    let mut state = AnimatorState::new(idle_run_catalog());
    state.advance(100).unwrap();
    let frame = state.current_frame;
    let timer = state.timer;
    assert_eq!(state.select_state("Idle"), Ok(false));
    assert_eq!(state.current_state, "Idle");
    assert_eq!(state.current_frame, frame);
    assert_eq!(state.timer, timer);
}

#[test]
fn transition_forces_resolution_despite_pending_timer() {
    let mut state = AnimatorState::new(idle_run_catalog());
    assert_eq!(state.advance(100), Ok(Some(1)));
    assert_eq!(state.timer, 100);
    assert_eq!(state.select_state("Run"), Ok(true));
    // Even a zero-elapsed tick resolves a frame right after the transition.
    assert_eq!(state.advance(0), Ok(Some(1)));
    assert_eq!(state.timer, 50);
}

#[test]
fn small_elapsed_never_changes_frame() {
    let mut state = AnimatorState::new(idle_catalog());
    state.advance(100).unwrap();
    assert_eq!(state.timer, 100);
    for elapsed in [0, 1, 30, 40] {
        assert_eq!(state.advance(elapsed), Ok(None));
        assert_eq!(state.current_frame, 1);
    }
    assert_eq!(state.timer, 29);
}

#[test]
fn out_of_range_frame_recovers_to_start() {
    // A spawned state shows frame 0 even when the range starts later; the
    // first expiry recovers to the range's first frame.
    let d = def(100, 1, 4, true);
    assert_eq!(next_frame(d, 0), 1);
    assert_eq!(next_frame(d, 99), 1);
    let catalog = AnimationCatalog::new(vec![("Idle".to_string(), d)]).unwrap();
    let mut state = AnimatorState::new(catalog);
    assert_eq!(state.advance(5), Ok(Some(1)));
    assert_eq!(state.advance(100), Ok(Some(2)));
}

#[test]
fn next_frame_steps_and_wraps() {
    let looping = def(100, 0, 3, true);
    assert_eq!(next_frame(looping, 0), 1);
    assert_eq!(next_frame(looping, 2), 3);
    assert_eq!(next_frame(looping, 3), 0);
    let held = def(100, 0, 3, false);
    assert_eq!(next_frame(held, 2), 3);
    assert_eq!(next_frame(held, 3), 3);
}

#[test]
fn new_animator_defaults() {
    let state = AnimatorState::new(idle_catalog());
    assert_eq!(state.current_state, "Idle");
    assert_eq!(state.current_frame, 0);
    assert_eq!(state.timer, 0);
}
