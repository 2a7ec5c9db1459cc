//! MediaForge: planning and checking of media operations around FFmpeg.

pub mod model;
pub mod text;
pub mod names;
pub mod codec;
pub mod hardware;
pub mod streams;
pub mod convert;
pub mod presets;
pub mod args;
pub mod output;
pub mod process;
pub mod merge;
pub mod encode;
pub mod disc;
pub mod edit;
pub mod clip;
pub mod routing;
pub mod audio;
pub mod compress;
pub mod resize;
pub mod image;
pub mod verify;
pub mod capabilities;
pub mod batch;
pub mod inspect;
