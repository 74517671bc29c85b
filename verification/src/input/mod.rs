//! Seat input, turned into the host's vocabulary.

pub mod keyboard;
pub mod pointer;
pub mod touch;
