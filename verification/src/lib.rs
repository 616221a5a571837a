pub mod cpu;
