//! Per-key press counting for a keyboard heat map.

pub mod aggregator;
pub mod canonical;
mod clock;
pub mod key;
pub mod key_box;
pub mod keyboard;
pub mod listen;
pub mod press_time_map;
pub mod screenshot;
pub mod session;
