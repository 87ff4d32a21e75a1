//! The rules of War.v2, a WWI trench-warfare scene: the setup and placement
//! codes written by the setup page, the trench and garrison layouts, the
//! scene's random stream, and the command keys.

pub mod rng;
pub mod text;
pub mod setup;
pub mod roster;
pub mod deploy;
pub mod layout;
pub mod controls;
