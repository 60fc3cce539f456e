pub mod cpu;
pub mod display;
pub mod input;
pub mod instruction;
pub mod laws;
pub mod scheduler;
pub mod timer;
