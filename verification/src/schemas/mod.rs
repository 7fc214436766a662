//! Wire schemas of the generation service.

pub mod create_music;
