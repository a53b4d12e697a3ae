//! Core state primitives for a handheld-console CPU emulator: an aliased
//! register file whose pairs are addressable as one 16-bit word or two 8-bit
//! lanes, and a banked working memory with a software bank-select register.

pub mod cpu;
pub mod memory;
