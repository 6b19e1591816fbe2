//! A multiplexing driver for a common cathode display of four digits with
//! eight segments each, together with the state that a periodic refresh
//! shares with a foreground task.
pub mod readline;
pub mod seg8x4;
pub mod shared;
pub mod timer;
