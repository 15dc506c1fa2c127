pub mod champion;
pub mod fight;
pub mod laws;
pub mod leblanc;
pub mod target_dummy;
pub mod vi;
