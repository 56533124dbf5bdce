//! Decision core of XEarthLayer: the rules behind its virtual file system, its
//! mount handling, its memory telemetry and its directory layout.
//!
//! Decisions are functions of the values handed in, with proved contracts.
//! Paths, points in time, input and output errors and the guard of the first
//! memory reading are carried as the standard library's own types, which
//! verified code does not look into. The clock, the user's directories and the
//! process sizes are read here, through `SystemTime`, `dirs` and
//! `memory-stats`: nothing is claimed of a reading itself, and beside each
//! function that takes one stands a function that is handed the reading and
//! has an exact contract. Files, commands and the file system driver are the
//! business of the surrounding application.

pub mod coord;
pub mod fuse;
pub mod metrics;
pub mod outside;
pub mod platform;
pub mod system;
pub mod text;
