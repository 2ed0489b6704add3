//! Verified core of a terminal dashboard for a solid-state power amplifier:
//! register decoding, panel navigation, input classification, child-process
//! stream bookkeeping and bounded line history.

pub mod sspa;
pub mod history;
pub mod state;
pub mod events;
pub mod launcher;
