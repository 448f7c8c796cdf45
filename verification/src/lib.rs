//! Sprite animation playback.
//!
//! A [`clip::ClipInfo`] describes a loaded animation clip: ordered per-frame
//! display delays and a table of named tags, each a sub-range of the frames
//! with its own playback direction. An [`anim::AsepriteAnimation`] is the
//! mutable playback cursor for one running instance of a clip; its
//! `advance` method converts elapsed wall-clock time into the frame that is
//! showing now.

pub mod anim;
pub mod clip;
pub mod laws;

pub use anim::{AsepriteAnimation, AsepriteTag};
pub use clip::{AnimationDirection, ClipInfo, FrameInfo, TagInfo};
