pub mod cpu;
pub mod cpu_builder;
pub mod flags;
pub mod instructions;
pub mod laws;
pub mod memory;
pub mod model;
pub mod registers;
pub mod stack;
pub mod step_laws;
