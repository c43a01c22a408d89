//! A small 16-bit virtual machine: four aliasable accumulators, a flat
//! byte-addressable memory, sticky status flags, and a compact binary
//! instruction codec that round-trips exactly.

pub mod word;
pub mod cpu;
pub mod codec;
