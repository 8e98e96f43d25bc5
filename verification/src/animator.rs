//! Per-entity animator state, the per-tick frame advancer, and the state
//! selector.

use vstd::prelude::*;
use crate::catalog::AnimationCatalog;
use crate::defs::{step_frame, AnimError, AnimationDef};

verus! {

/// Mathematical value of an [`AnimatorState`]: the catalog as a map, the
/// state name as a character sequence, and the frame counter and timer as
/// plain integers.
pub struct AnimatorView {
    pub catalog: Map<Seq<char>, AnimationDef>,
    pub current_state: Seq<char>,
    pub current_frame: u64,
    pub timer: u64,
}

/// Mutable animation state of one entity: which named animation is active,
/// which absolute frame is displayed, and how many time units remain before
/// the next frame change.
pub struct AnimatorState {
    /// The entity's animations, read-only during playback.
    pub catalog: AnimationCatalog,
    /// Name of the active animation; a catalog key during normal play.
    pub current_state: String,
    /// Absolute frame index currently displayed.
    pub current_frame: u64,
    /// Time units left until the next frame change.
    pub timer: u64,
}

impl View for AnimatorState {
    type V = AnimatorView;

    open spec fn view(&self) -> AnimatorView {
        AnimatorView {
            catalog: self.catalog@,
            current_state: self.current_state@,
            current_frame: self.current_frame,
            timer: self.timer,
        }
    }
}

/// One tick of the frame advancer, as a function on animator values: the
/// state after the tick and the returned value.
///
/// An unknown state name changes nothing and signals `UnknownState`. While
/// the decremented timer stays positive the frame is kept and nothing is
/// resolved. On expiry the timer resets to the full frame duration (no
/// accumulated remainder, so a large `elapsed` never skips frames) and the
/// frame steps once.
pub open spec fn advance_model(s: AnimatorView, elapsed: u64) -> (AnimatorView, Result<
    Option<u64>,
    AnimError,
>) {
    if !s.catalog.contains_key(s.current_state) {
        (s, Err(AnimError::UnknownState))
    } else {
        let def = s.catalog[s.current_state];
        if elapsed < s.timer {
            (
                AnimatorView { timer: (s.timer - elapsed) as u64, ..s },
                Ok(None),
            )
        } else {
            let f = step_frame(def, s.current_frame);
            (
                AnimatorView { current_frame: f, timer: def.frame_duration, ..s },
                Ok(Some(f)),
            )
        }
    }
}

/// One decision of the state selector, as a function on animator values: the
/// state after the call and the returned value.
///
/// Selecting the active state again changes nothing. An unknown name is
/// rejected without touching the state. Otherwise the state name changes, the
/// frame resets to the new definition's `start`, and the timer resets to zero
/// so the very next advancer tick resolves a frame.
pub open spec fn select_model(s: AnimatorView, desired: Seq<char>) -> (AnimatorView, Result<
    bool,
    AnimError,
>) {
    if desired == s.current_state {
        (s, Ok(false))
    } else if !s.catalog.contains_key(desired) {
        (s, Err(AnimError::UnknownState))
    } else {
        (
            AnimatorView {
                current_state: desired,
                current_frame: s.catalog[desired].start,
                timer: 0,
                ..s
            },
            Ok(true),
        )
    }
}

impl AnimatorState {
    /// Fresh state at entity spawn: the `"Idle"` animation, frame `0`, and a
    /// zero timer, which forces a frame resolution on the first tick.
    pub fn new(catalog: AnimationCatalog) -> (r: AnimatorState)
        ensures
            r.catalog == catalog,
            r.current_state@ == "Idle"@,
            r.current_frame == 0,
            r.timer == 0,
    {
        AnimatorState {
            catalog,
            current_state: "Idle".to_owned(),
            current_frame: 0,
            timer: 0,
        }
    }

    /// One tick of the frame advancer: decrements the timer by `elapsed` and,
    /// on expiry, resets it and advances the frame, returning the resolved
    /// absolute frame index. `Ok(None)` means the frame did not change and
    /// the caller must keep displaying the last resolved index.
    ///
    /// An unknown current state is a recoverable skip: the state is left
    /// untouched and `UnknownState` is signalled, never a panic.
    pub fn advance(&mut self, elapsed: u64) -> (r: Result<Option<u64>, AnimError>)
        ensures
            final(self)@ == advance_model(old(self)@, elapsed).0,
            r == advance_model(old(self)@, elapsed).1,
            !old(self)@.catalog.contains_key(old(self)@.current_state) ==> *final(self) == *old(
                self,
            ),
            elapsed < old(self).timer ==> final(self).current_frame == old(self).current_frame,
    {
        let def: AnimationDef = match self.catalog.get(self.current_state.as_str()) {
            Some(d) => d,
            None => {
                return Err(AnimError::UnknownState);
            },
        };
        if elapsed < self.timer {
            self.timer = self.timer - elapsed;
            Ok(None)
        } else {
            self.timer = def.frame_duration;
            self.current_frame = crate::defs::next_frame(def, self.current_frame);
            Ok(Some(self.current_frame))
        }
    }

    /// Makes `desired` the active state. Returns `Ok(true)` when a
    /// transition occurred — the caller then rebinds the visual resource
    /// tagged with the new name — and `Ok(false)` when `desired` was already
    /// active, in which case nothing at all is changed. An unknown name is
    /// rejected with `UnknownState`, leaving the state untouched.
    pub fn select_state(&mut self, desired: &str) -> (r: Result<bool, AnimError>)
        ensures
            final(self)@ == select_model(old(self)@, desired@).0,
            r == select_model(old(self)@, desired@).1,
            desired@ == old(self)@.current_state ==> *final(self) == *old(self),
            (desired@ != old(self)@.current_state && !old(self)@.catalog.contains_key(desired@))
                ==> *final(self) == *old(self),
    {
        let desired_owned: String = desired.to_owned();
        if self.current_state == desired_owned {
            return Ok(false);
        }
        match self.catalog.get(desired) {
            None => Err(AnimError::UnknownState),
            Some(def) => {
                self.current_state = desired_owned;
                self.current_frame = def.start;
                self.timer = 0;
                Ok(true)
            },
        }
    }
}

} // verus!
