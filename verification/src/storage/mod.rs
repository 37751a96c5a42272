//! Storage that lives in memory

pub mod memory;

pub use memory::Memory;
