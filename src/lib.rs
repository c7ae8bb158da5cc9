//! A catalog of named media streams, the rule that decides whether a stream
//! is live, and the plan for handing a stream to an external media player.
//!
//! Everything here is a pure function of the values passed in: the network
//! request, the probe tool and the player process are run by the caller,
//! which hands their outcomes back to the functions of this library.
pub mod entry;
pub mod directory;
pub mod command;
pub mod liveness;
pub mod playback;
