pub mod alu;
pub mod branch;
pub mod flag;
pub mod increment;
pub mod interrupt;
pub mod load_store;
pub mod logic;
pub mod shift;
pub mod stack;
pub mod transfer;
