//! Core of a terminal music player: a playlist state machine with gapless
//! pre-fetching, the decision logic of the playback backend loop, an
//! orchestrator tying the two together, and the command/update protocol that
//! drives them from a separate control process.

pub mod backend;
pub mod channel;
pub mod config;
pub mod kugou;
pub mod model;
pub mod player;
pub mod playlist;
pub mod protocol;
pub mod songtag;
pub mod youtube;
