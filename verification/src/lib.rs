//! A minimal byte-oriented virtual CPU with a verified instruction cycle.

pub mod cpu;
pub mod isa;
pub mod laws;
pub mod machine;
pub mod types;
