//! Process telemetry.

pub mod memory_probe;

pub use memory_probe::{
    allocator_environment, MemoryProbe, MemorySample, ProcessMemoryProbe, StaticMemoryProbe,
};
