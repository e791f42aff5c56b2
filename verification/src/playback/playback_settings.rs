use vstd::prelude::*;

verus! {

/// The speed value that plays an animation at its own frame rate.
pub const NORMAL_SPEED: i32 = 1000;

/// A half-open range `[start, end)` of frame positions.
///
/// Nothing keeps `start` below `end`: whoever reads a range bounds it against
/// the composition it is applied to.
#[derive(Clone, Copy, Debug, PartialEq, Eq, Structural)]
pub struct FrameRange {
    /// The first position of the range.
    pub start: i32,
    /// The position just past the range.
    pub end: i32,
}

/// The direction to play the segments of an animation.
#[derive(Clone, Copy, Debug, PartialEq, Eq, Structural)]
pub enum PlaybackDirection {
    /// Play in the default direction, first frame to last frame.
    Normal,
    /// Play in the reverse direction, last frame to first frame.
    Reverse,
}

impl Default for PlaybackDirection {
    fn default() -> (direction: Self)
        ensures
            direction == PlaybackDirection::Normal,
    {
        PlaybackDirection::Normal
    }
}

/// How often to loop.
#[derive(Clone, Copy, Debug, PartialEq, Eq, Structural)]
pub enum PlaybackLoopBehavior {
    /// Do not loop. This is equivalent to `PlaybackLoopBehavior::Amount(0)`.
    DoNotLoop,
    /// Complete a specified number of loops.
    Amount(usize),
    /// Loop continuously.
    Loop,
}

impl Default for PlaybackLoopBehavior {
    fn default() -> (looping: Self)
        ensures
            looping == PlaybackLoopBehavior::Loop,
    {
        PlaybackLoopBehavior::Loop
    }
}

/// Playback settings which adjust the playback of an animation asset.
#[derive(Clone, Copy, Debug, PartialEq, Eq, Structural)]
pub struct PlaybackSettings {
    /// Whether to automatically start the animation.
    pub autoplay: bool,
    /// The direction of the animation.
    pub direction: PlaybackDirection,
    /// The speed of the animation in thousandths of the asset's own rate:
    /// [`NORMAL_SPEED`] is normal speed, less is slower, more is faster. A
    /// negative speed moves the playhead backwards.
    pub speed: i32,
    /// Idle frame units spent between loops.
    pub intermission: u32,
    /// Whether to loop, and how many times.
    pub looping: PlaybackLoopBehavior,
    /// The segment of the animation to play. Positions outside the
    /// composition are ignored.
    pub segments: FrameRange,
}

impl PlaybackSettings {
    /// The settings an entity plays with when it carries none of its own:
    /// autoplay, forwards, normal speed, no intermission, looping forever,
    /// over the whole composition.
    pub open spec fn spec_default() -> PlaybackSettings {
        PlaybackSettings {
            autoplay: true,
            direction: PlaybackDirection::Normal,
            speed: 1000,
            intermission: 0,
            looping: PlaybackLoopBehavior::Loop,
            segments: FrameRange { start: i32::MIN, end: i32::MAX },
        }
    }
}

impl Default for PlaybackSettings {
    fn default() -> (settings: Self)
        ensures
            settings == PlaybackSettings::spec_default(),
    {
        PlaybackSettings {
            autoplay: true,
            direction: PlaybackDirection::Normal,
            speed: NORMAL_SPEED,
            intermission: 0,
            looping: PlaybackLoopBehavior::Loop,
            segments: FrameRange { start: i32::MIN, end: i32::MAX },
        }
    }
}

} // verus!
