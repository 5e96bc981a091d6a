//! Verified core of `xclod`, a command-line helper for turntable
//! photogrammetry: configuration handling, command-line decisions, and the
//! plans that drive ffmpeg, exiftool and assimp.

pub mod cli;
pub mod config;
pub mod convert;
pub mod extract;
pub mod paths;
pub mod text;
pub mod tools;
