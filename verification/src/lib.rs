//! A small virtual-pet engine: an animation driver that counts frame cycles,
//! a mood state machine with time decay and petting-gated improvement, a
//! window drag/close controller, and the save-record codec for the pet's
//! lifetime counter. All timestamps are monotonic milliseconds supplied by
//! the host, so every rule here is a total function over plain values.

pub mod animation;
pub mod mood;
pub mod savefile;
pub mod window;
