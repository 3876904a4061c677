//! A two-player board-game protocol: the fixed-width move codec, the mirrored
//! board projections, the turn-taking decisions of the local, host and remote
//! loops, and the parsing of the multiplayer endpoint argument.
//!
//! The rules of the game (legal moves, the position, saving and loading) are
//! a rules engine's business; the library only sees its verdicts and the
//! pieces it reports on each square.
pub mod codec;
pub mod command;
pub mod endpoint;
pub mod render;
pub mod session;
