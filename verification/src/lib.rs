//! A state-machine player for frame-based vector animations.
//!
//! A [`LottiePlayer`] holds named states, each bound to an animation asset and
//! a set of playback settings, and moves between them on time, completion and
//! pointer triggers. Once per tick the host runs the four stages of
//! [`lottie_player::systems`] in order, or simply calls
//! [`lottie_player::systems::tick`].
//!
//! Every position on a timeline is a whole number of frame units. The host
//! chooses how fine a unit is (a thousandth of a frame, say) and states frame
//! bounds, segments, intermissions and frame rates in that unit. Playheads are
//! 64-bit and saturate at the ends of their range.

pub mod asset;
pub mod lottie_player;
pub mod playback;
pub mod playhead;

pub use asset::{Asset, AssetHandle, Assets, Composition};
pub use lottie_player::{AnimationState, AnimationTransition, LottiePlayer, StateTable, Theme, UnknownState};
pub use playback::{FrameRange, PlaybackDirection, PlaybackLoopBehavior, PlaybackSettings};
