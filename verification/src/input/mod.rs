//! Input events: keys, buttons and the events that carry them.

pub mod keyboard;
pub mod event;
pub mod external;
pub mod gui;
pub mod errors;
