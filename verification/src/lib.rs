//! Carves Dalvik executable (DEX) payloads out of a process's memory image.
//!
//! The library holds the verified core of the carving engine: the
//! little-endian field codec, the mapping eligibility filter, the magic
//! pattern scanner, the size estimator, the header repair, and the
//! freeze/scan/resume session protocol. Reading another process's memory,
//! sending the stop and continue signals, enumerating mappings and writing
//! the output files are left to the surrounding program, which drives the
//! session state machine and performs each action it asks for.

pub mod engine;
pub mod estimate;
pub mod le;
pub mod mapping;
pub mod repair;
pub mod scan;
