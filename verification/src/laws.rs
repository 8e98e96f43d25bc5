//! The laws of the animation core, proved once and for all over the advancer
//! and selector models.

use vstd::prelude::*;
use crate::animator::{advance_model, select_model, AnimatorView};
use crate::defs::{step_frame, step_frame_n, AnimError, AnimationDef};

verus! {

/// The animator value after a run of advancer ticks, one per entry of
/// `elapsed`.
pub open spec fn run_ticks(s: AnimatorView, elapsed: Seq<u64>) -> AnimatorView
    decreases elapsed.len(),
{
    if elapsed.len() == 0 {
        s
    } else {
        run_ticks(advance_model(s, elapsed[0]).0, elapsed.drop_first())
    }
}

/// A frame produced by one expiry step always lies within the definition's
/// frame range.
pub proof fn lemma_step_frame_in_range(def: AnimationDef, frame: u64)
    requires
        def.valid(),
    ensures
        def.start <= step_frame(def, frame) <= def.end,
{
}

/// Within the frame range of a looping definition, one expiry step advances
/// the frame-relative index by exactly one modulo the number of frames.
pub proof fn lemma_step_frame_wraps(def: AnimationDef, frame: u64)
    requires
        def.valid(),
        def.looping,
        def.start <= frame <= def.end,
    ensures
        step_frame(def, frame) == def.start + (frame - def.start + 1) % def.num_frames(),
{
    let rel = frame - def.start;
    if frame == def.end {
        vstd::arithmetic::div_mod::lemma_mod_self_0(def.num_frames());
    } else {
        vstd::arithmetic::div_mod::lemma_small_mod((rel + 1) as nat, def.num_frames() as nat);
    }
}

/// A run of expiry ticks (each `elapsed` at least the timer it meets) steps
/// the frame once per tick and never touches the state name or the catalog.
proof fn lemma_run_expiry_ticks(s: AnimatorView, elapsed: Seq<u64>)
    requires
        s.catalog.contains_key(s.current_state),
        elapsed.len() > 0 ==> elapsed[0] >= s.timer,
        forall|i: int|
            1 <= i < elapsed.len() ==> #[trigger] elapsed[i]
                >= s.catalog[s.current_state].frame_duration,
    ensures
        run_ticks(s, elapsed).current_frame == step_frame_n(
            s.catalog[s.current_state],
            s.current_frame,
            elapsed.len(),
        ),
        run_ticks(s, elapsed).current_state == s.current_state,
        run_ticks(s, elapsed).catalog == s.catalog,
    decreases elapsed.len(),
{
    if elapsed.len() > 0 {
        let s1 = advance_model(s, elapsed[0]).0;
        let rest = elapsed.drop_first();
        assert forall|i: int| 1 <= i < rest.len() implies #[trigger] rest[i]
            >= s1.catalog[s1.current_state].frame_duration by {
            assert(rest[i] == elapsed[i + 1]);
        }
        if rest.len() > 0 {
            assert(rest[0] == elapsed[1]);
        }
        lemma_run_expiry_ticks(s1, rest);
    }
}

/// Stepping a looping definition from any frame of its range comes back to
/// `start` after exactly the remaining number of frames.
proof fn lemma_step_frame_n_cycle(def: AnimationDef, frame: u64)
    requires
        def.valid(),
        def.looping,
        def.start <= frame <= def.end,
    ensures
        step_frame_n(def, frame, (def.end - frame + 1) as nat) == def.start,
    decreases def.end - frame,
{
    let k = (def.end - frame + 1) as nat;
    if frame == def.end {
        assert(step_frame(def, frame) == def.start);
        assert(step_frame_n(def, frame, k) == step_frame_n(def, def.start, 0));
    } else {
        lemma_step_frame_n_cycle(def, (frame + 1) as u64);
        assert(step_frame(def, frame) == frame + 1);
        assert(step_frame_n(def, frame, k) == step_frame_n(
            def,
            (frame + 1) as u64,
            (def.end - (frame + 1) + 1) as nat,
        ));
    }
}

/// Cycle closure: from `start`, a looping animation returns to `start` after
/// exactly `num_frames` consecutive expiry ticks — the first at least the
/// pending timer, each later one at least the frame duration.
pub proof fn lemma_cycle_closure(s: AnimatorView, elapsed: Seq<u64>)
    requires
        s.catalog.contains_key(s.current_state),
        s.catalog[s.current_state].valid(),
        s.catalog[s.current_state].looping,
        s.current_frame == s.catalog[s.current_state].start,
        elapsed.len() == s.catalog[s.current_state].num_frames(),
        elapsed[0] >= s.timer,
        forall|i: int|
            1 <= i < elapsed.len() ==> #[trigger] elapsed[i]
                >= s.catalog[s.current_state].frame_duration,
    ensures
        run_ticks(s, elapsed).current_frame == s.current_frame,
        run_ticks(s, elapsed).current_state == s.current_state,
{
    lemma_run_expiry_ticks(s, elapsed);
    lemma_step_frame_n_cycle(s.catalog[s.current_state], s.current_frame);
}

/// Terminal hold: once a non-looping animation shows its last frame, no run
/// of further ticks — whatever each tick's elapsed time — ever changes the
/// frame again.
pub proof fn lemma_terminal_hold(s: AnimatorView, elapsed: Seq<u64>)
    requires
        s.catalog.contains_key(s.current_state),
        s.catalog[s.current_state].valid(),
        !s.catalog[s.current_state].looping,
        s.current_frame == s.catalog[s.current_state].end,
    ensures
        run_ticks(s, elapsed).current_frame == s.current_frame,
        run_ticks(s, elapsed).current_state == s.current_state,
    decreases elapsed.len(),
{
    if elapsed.len() > 0 {
        lemma_terminal_hold(advance_model(s, elapsed[0]).0, elapsed.drop_first());
    }
}

/// Selecting the state that is already active changes nothing and reports
/// that no transition occurred.
pub proof fn lemma_select_same_state_noop(s: AnimatorView, desired: Seq<char>)
    requires
        desired == s.current_state,
    ensures
        select_model(s, desired) == (s, Ok::<bool, AnimError>(false)),
{
}

/// A transition resets the frame to the new definition's `start` and zeroes
/// the timer, so the very next advancer tick resolves a frame, whatever
/// elapsed time it is given and whatever timer the old state had left.
pub proof fn lemma_transition_forces_resolution(s: AnimatorView, desired: Seq<char>, elapsed: u64)
    requires
        select_model(s, desired).1 == Ok::<bool, AnimError>(true),
    ensures
        ({
            let s1 = select_model(s, desired).0;
            &&& s1.current_state == desired
            &&& s1.current_frame == s.catalog[desired].start
            &&& s1.timer == 0
            &&& advance_model(s1, elapsed).1 == Ok::<Option<u64>, AnimError>(
                Some(step_frame(s.catalog[desired], s.catalog[desired].start)),
            )
        }),
{
}

/// An advancer tick whose elapsed time is smaller than the pending timer
/// never changes the frame and never resolves one.
pub proof fn lemma_small_elapsed_keeps_frame(s: AnimatorView, elapsed: u64)
    requires
        elapsed < s.timer,
    ensures
        advance_model(s, elapsed).0.current_frame == s.current_frame,
        advance_model(s, elapsed).1 != Ok::<Option<u64>, AnimError>(
            Some(advance_model(s, elapsed).0.current_frame),
        ),
{
}

/// An unknown current state makes the advancer skip the tick: the state is
/// returned unchanged with an `UnknownState` signal, never a crash.
pub proof fn lemma_unknown_state_skipped(s: AnimatorView, elapsed: u64)
    requires
        !s.catalog.contains_key(s.current_state),
    ensures
        advance_model(s, elapsed) == (s, Err::<Option<u64>, AnimError>(AnimError::UnknownState)),
{
}

/// An unknown desired state makes the selector reject the transition: the
/// state is returned unchanged with an `UnknownState` signal, never a crash.
pub proof fn lemma_unknown_desired_rejected(s: AnimatorView, desired: Seq<char>)
    requires
        desired != s.current_state,
        !s.catalog.contains_key(desired),
    ensures
        select_model(s, desired) == (s, Err::<bool, AnimError>(AnimError::UnknownState)),
{
}

} // verus!
