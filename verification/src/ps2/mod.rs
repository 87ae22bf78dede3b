//! PlayStation 2 graphics: register encodings, video memory allocation and packet building.

pub mod display;
pub mod display_fb;
pub mod display_area;
pub mod vram;
pub mod draw;
pub mod gs;
pub mod gif;
pub mod dma;
pub mod time;
pub mod interrupts;
pub mod triangle;
