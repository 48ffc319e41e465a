//! A reconnaissance orchestration library: a baseline port-discovery scan is
//! parsed into a typed inventory of open ports and services, and a trigger
//! table decides which follow-up scanners run for which discovered port.
//!
//! The library holds the decision and parsing logic: the streaming tag parser
//! for the baseline tool's output, the resilient line-oriented parser shared
//! by follow-up tools, the trigger dispatcher, and the shared error taxonomy.
//! Process spawning, installation checks and all file and terminal I/O live
//! with the caller.

pub mod engine;
pub mod error;
pub mod feroxbuster;
mod json;
pub mod lines;
pub mod nmap;
pub mod nuclei;
pub mod scan;
pub mod tags;
