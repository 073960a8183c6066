//! Statistics, key handling and screen layout for a terminal ping monitor.
pub mod pacing;
pub mod clock;
pub mod display;
pub mod keys;
pub mod layout;
pub mod stats;
