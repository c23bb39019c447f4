pub mod clock;
pub mod cpu;
pub mod display;
pub mod input;
pub mod memory;
