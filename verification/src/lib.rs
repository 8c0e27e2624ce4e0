//! Control core for a card-triggered audio player: command framing for the
//! serial audio-decoder protocol, a fixed-capacity card registry, and the
//! playback state machine that decides what to send on each detection tick.

pub mod commands;
pub mod player;
pub mod registry;
