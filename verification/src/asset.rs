//! The animation assets a player drives, as far as playback reads and writes
//! them: composition bounds, the playhead, and the moment of the first
//! rendered frame.

use vstd::prelude::*;
use crate::playback::playback_settings::PlaybackSettings;
use crate::playhead::{calculate_playhead, saturate, shown_frame};

verus! {

/// The frame bounds and frame rate of one animation.
///
/// A composition always spans at least one frame unit and has a positive
/// frame rate.
#[derive(Clone, Copy, Debug, PartialEq, Eq)]
pub struct Composition {
    pub(crate) frame_start: i32,
    pub(crate) frame_end: i32,
    pub(crate) frame_rate: u32,
}

impl Composition {
    /// The bounds enclose at least one frame unit and the rate is positive.
    #[verifier::type_invariant]
    pub open spec fn well_formed(self) -> bool {
        self.start() < self.end() && self.rate() > 0
    }

    /// The first frame position.
    pub closed spec fn start(self) -> int {
        self.frame_start as int
    }

    /// The position just past the last frame.
    pub closed spec fn end(self) -> int {
        self.frame_end as int
    }

    /// Frame units per second.
    pub closed spec fn rate(self) -> int {
        self.frame_rate as int
    }

    /// `end - start`: the number of frame units in one pass.
    pub open spec fn length(self) -> int {
        self.end() - self.start()
    }

    /// A composition over `[frame_start, frame_end)` that plays `frame_rate`
    /// frame units per second, or `None` where the range is empty or the rate
    /// is zero.
    pub fn new(frame_start: i32, frame_end: i32, frame_rate: u32) -> (composition: Option<Composition>)
        ensures
            composition is Some <==> frame_start < frame_end && frame_rate > 0,
            composition is Some ==> {
                &&& composition->0.start() == frame_start
                &&& composition->0.end() == frame_end
                &&& composition->0.rate() == frame_rate
                &&& composition->0.well_formed()
            },
    {
        if frame_start < frame_end && frame_rate > 0 {
            Some(Composition { frame_start, frame_end, frame_rate })
        } else {
            None
        }
    }

    /// The first frame position.
    pub fn frame_start(&self) -> (start: i32)
        ensures
            start == self.start(),
            self.well_formed(),
    {
        proof {
            use_type_invariant(self);
        }
        self.frame_start
    }

    /// The position just past the last frame.
    pub fn frame_end(&self) -> (end: i32)
        ensures
            end == self.end(),
            self.well_formed(),
    {
        proof {
            use_type_invariant(self);
        }
        self.frame_end
    }

    /// Frame units per second.
    pub fn frame_rate(&self) -> (rate: u32)
        ensures
            rate == self.rate(),
            self.well_formed(),
    {
        proof {
            use_type_invariant(self);
        }
        self.frame_rate
    }

    /// Bounds and rate are machine integers.
    pub proof fn lemma_machine_range(self)
        ensures
            i32::MIN <= self.start() <= i32::MAX,
            i32::MIN <= self.end() <= i32::MAX,
            0 <= self.rate() <= u32::MAX,
    {
    }
}

/// An animation asset, as far as playback reads and writes it.
#[derive(Clone, Copy, Debug, PartialEq, Eq)]
pub enum Asset {
    /// A still image: it can be shown, and has no frames to play.
    Svg {
        /// When the image was first rendered since its state was entered, in
        /// microseconds of the host's clock.
        first_frame: Option<u64>,
    },
    /// A frame-based animation.
    Lottie {
        /// The bounds and rate of the animation.
        composition: Composition,
        /// When the animation first played since its state was entered, in
        /// microseconds of the host's clock.
        first_frame: Option<u64>,
        /// The playhead: every frame unit played so far, loops included.
        rendered_frames: i64,
    },
}

impl Asset {
    /// The moment recorded for the first rendered frame, if any.
    pub open spec fn shown_at(self) -> Option<u64> {
        match self {
            Asset::Svg { first_frame } => first_frame,
            Asset::Lottie { first_frame, .. } => first_frame,
        }
    }

    /// This asset with `first_frame` as its record of the first rendered frame.
    pub open spec fn with_shown_at(self, first_frame: Option<u64>) -> Asset {
        match self {
            Asset::Svg { .. } => Asset::Svg { first_frame },
            Asset::Lottie { composition, rendered_frames, .. } => Asset::Lottie {
                composition,
                first_frame,
                rendered_frames,
            },
        }
    }

    /// This asset with its playhead at `rendered_frames`; a still image has
    /// none and stays as it is.
    pub open spec fn with_playhead(self, rendered_frames: i64) -> Asset {
        match self {
            Asset::Svg { .. } => self,
            Asset::Lottie { composition, first_frame, .. } => Asset::Lottie {
                composition,
                first_frame,
                rendered_frames,
            },
        }
    }

    /// A still image that has not been rendered yet.
    pub fn svg() -> (asset: Asset)
        ensures
            asset == (Asset::Svg { first_frame: None }),
    {
        Asset::Svg { first_frame: None }
    }

    /// An animation over `composition` that has not played yet.
    pub fn lottie(composition: Composition) -> (asset: Asset)
        ensures
            asset == (Asset::Lottie { composition, first_frame: None, rendered_frames: 0 }),
    {
        Asset::Lottie { composition, first_frame: None, rendered_frames: 0 }
    }

    /// The moment recorded for the first rendered frame, if any.
    pub fn first_frame(&self) -> (first_frame: Option<u64>)
        ensures
            first_frame == self.shown_at(),
    {
        match self {
            Asset::Svg { first_frame } => *first_frame,
            Asset::Lottie { first_frame, .. } => *first_frame,
        }
    }

    /// Records `now` as the moment of the first rendered frame, unless one is
    /// recorded already: the record is set once per entry into a state.
    pub fn mark_rendered(&mut self, now: u64)
        ensures
            *final(self) == if old(self).shown_at() is Some {
                *old(self)
            } else {
                old(self).with_shown_at(Some(now))
            },
    {
        match self {
            Asset::Svg { first_frame } => {
                if first_frame.is_none() {
                    *first_frame = Some(now);
                }
            },
            Asset::Lottie { first_frame, .. } => {
                if first_frame.is_none() {
                    *first_frame = Some(now);
                }
            },
        }
    }

    /// The frame that the playhead stands for under `settings`; `None` for a
    /// still image.
    pub fn calculate_playhead(&self, settings: &PlaybackSettings) -> (frame: Option<i64>)
        ensures
            frame == match *self {
                Asset::Svg { .. } => None::<i64>,
                Asset::Lottie { composition, rendered_frames, .. } => Some(
                    saturate(shown_frame(rendered_frames as int, *settings, composition)) as i64,
                ),
            },
    {
        match self {
            Asset::Svg { .. } => None,
            Asset::Lottie { composition, rendered_frames, .. } => Some(
                calculate_playhead(*rendered_frames, settings, composition),
            ),
        }
    }
}

/// A stable reference to a slot of [`Assets`].
#[derive(Clone, Copy, Debug, PartialEq, Eq, Structural)]
pub struct AssetHandle {
    /// The slot's index.
    pub index: usize,
}

/// What `handle` resolves to among `slots`: nothing where the slot does not
/// exist or is still empty.
pub open spec fn resolve(slots: Seq<Option<Asset>>, handle: AssetHandle) -> Option<Asset> {
    if handle.index < slots.len() {
        slots[handle.index as int]
    } else {
        None
    }
}

/// The store of assets. Controllers hold handles into it, never the assets
/// themselves; a slot is empty until its asset has been loaded.
#[derive(Clone, Debug)]
pub struct Assets {
    /// One slot for each handle given out.
    pub slots: Vec<Option<Asset>>,
}

impl View for Assets {
    type V = Seq<Option<Asset>>;

    open spec fn view(&self) -> Seq<Option<Asset>> {
        self.slots@
    }
}

impl Assets {
    /// An empty store.
    pub fn new() -> (assets: Assets)
        ensures
            assets@ == Seq::<Option<Asset>>::empty(),
    {
        Assets { slots: Vec::new() }
    }

    /// Gives out a handle to a new slot that holds nothing yet.
    pub fn reserve(&mut self) -> (handle: AssetHandle)
        ensures
            handle.index == old(self)@.len(),
            final(self)@ == old(self)@.push(None),
    {
        let index: usize = self.slots.len();
        self.slots.push(None);
        AssetHandle { index }
    }

    /// Stores `asset` in a new slot and gives out its handle.
    pub fn add(&mut self, asset: Asset) -> (handle: AssetHandle)
        ensures
            handle.index == old(self)@.len(),
            final(self)@ == old(self)@.push(Some(asset)),
    {
        let index: usize = self.slots.len();
        self.slots.push(Some(asset));
        AssetHandle { index }
    }

    /// Puts `asset` into the slot of `handle`, and tells whether that slot
    /// exists. Nothing changes where it does not.
    pub fn set(&mut self, handle: AssetHandle, asset: Asset) -> (stored: bool)
        ensures
            stored == (handle.index < old(self)@.len()),
            final(self)@ == if stored {
                old(self)@.update(handle.index as int, Some(asset))
            } else {
                old(self)@
            },
    {
        if handle.index < self.slots.len() {
            self.slots[handle.index] = Some(asset);
            true
        } else {
            false
        }
    }

    /// The asset that `handle` resolves to, if it has been loaded.
    pub fn get(&self, handle: AssetHandle) -> (asset: Option<Asset>)
        ensures
            asset == resolve(self@, handle),
    {
        if handle.index < self.slots.len() {
            self.slots[handle.index]
        } else {
            None
        }
    }
}

} // verus!
