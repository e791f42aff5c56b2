//! How one animation segment is played.

pub mod playback_settings;

pub use playback_settings::{FrameRange, PlaybackDirection, PlaybackLoopBehavior, PlaybackSettings};
