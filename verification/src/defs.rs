//! Animation definitions: one named playback sequence within a sprite sheet,
//! and the frame-stepping rule applied each time the frame timer expires.

use vstd::prelude::*;

verus! {

/// Errors of the animation core. Both are recoverable: an unknown state name
/// skips the entity for one tick or rejects a transition, and an invalid
/// definition is refused when the catalog is built, before any entity exists.
#[derive(Clone, Copy, Debug, PartialEq, Eq, Structural)]
pub enum AnimError {
    /// A state name that is not a key of the catalog.
    UnknownState,
    /// A definition with `end < start` or `frame_duration == 0`.
    InvalidDefinition,
}

/// One playback sequence: the absolute frame range `[start, end]` within the
/// sprite sheet, how long each frame is shown (in integer time units), and
/// whether the sequence wraps around or holds at `end` once reached.
#[derive(Clone, Copy, Debug, PartialEq, Eq, Structural)]
pub struct AnimationDef {
    /// Time units each frame stays on screen; must be positive.
    pub frame_duration: u64,
    /// First frame index of the sequence.
    pub start: u64,
    /// Last frame index of the sequence; at least `start`.
    pub end: u64,
    /// Whether the sequence wraps from `end` back to `start`.
    pub looping: bool,
}

impl AnimationDef {
    /// A definition is valid when each frame is shown for a positive time and
    /// the frame range is non-empty.
    pub open spec fn valid(self) -> bool {
        0 < self.frame_duration && self.start <= self.end
    }

    /// Number of frames in the sequence.
    pub open spec fn num_frames(self) -> int {
        self.end - self.start + 1
    }

    /// Whether this definition is valid; the executable counterpart of
    /// [`AnimationDef::valid`].
    pub fn is_valid(&self) -> (b: bool)
        ensures
            b == self.valid(),
    {
        0 < self.frame_duration && self.start <= self.end
    }

    /// Builds a definition, refusing an empty frame range or a zero frame
    /// duration.
    pub fn new(frame_duration: u64, start: u64, end: u64, looping: bool) -> (r: Result<
        AnimationDef,
        AnimError,
    >)
        ensures
            ({
                let def = AnimationDef { frame_duration, start, end, looping };
                if def.valid() {
                    r == Ok::<AnimationDef, AnimError>(def)
                } else {
                    r == Err::<AnimationDef, AnimError>(AnimError::InvalidDefinition)
                }
            }),
    {
        let def = AnimationDef { frame_duration, start, end, looping };
        if def.is_valid() {
            Ok(def)
        } else {
            Err(AnimError::InvalidDefinition)
        }
    }
}

/// The frame shown after one timer expiry, given the frame shown before it.
///
/// Within the range, the frame-relative index advances by one modulo
/// `num_frames`; a non-looping sequence holds at `end` instead of wrapping. A
/// frame outside `[start, end]` (possible right after spawning, before the
/// first completed update) recovers to `start`.
pub open spec fn step_frame(def: AnimationDef, frame: u64) -> u64 {
    if frame < def.start || frame > def.end {
        def.start
    } else if frame == def.end {
        if def.looping {
            def.start
        } else {
            def.end
        }
    } else {
        (frame + 1) as u64
    }
}

/// `step_frame` applied `k` times.
pub open spec fn step_frame_n(def: AnimationDef, frame: u64, k: nat) -> u64
    decreases k,
{
    if k == 0 {
        frame
    } else {
        step_frame_n(def, step_frame(def, frame), (k - 1) as nat)
    }
}

/// The frame shown after one timer expiry; the executable counterpart of
/// [`step_frame`].
pub fn next_frame(def: AnimationDef, frame: u64) -> (r: u64)
    ensures
        r == step_frame(def, frame),
{
    if frame < def.start || frame > def.end {
        def.start
    } else if frame == def.end {
        if def.looping {
            def.start
        } else {
            def.end
        }
    } else {
        frame + 1
    }
}

} // verus!
