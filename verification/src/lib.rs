//! Decode/buffer pipeline and player control state machine of a local-file
//! audio playback engine.
//!
//! Sample values and volumes are carried as the bit patterns of IEEE-754
//! doubles (`u64`); the library moves and counts them but never interprets
//! them.

pub mod timebase;
pub mod laws;
pub mod library;
pub mod metadata;
pub mod player;
pub mod scanner;
pub mod sniff;
pub mod stream;
pub mod track;
