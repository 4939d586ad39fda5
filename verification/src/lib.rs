//! Decision logic of an agent that polls an SPS30 particulate-matter sensor,
//! keeps the latest reading and offers it to monitoring systems.
//!
//! Everything here works on plain values. A reading is carried as the IEEE-754
//! bit patterns of its ten single-precision numbers, so that the logic can be
//! reasoned about exactly; serial I/O, locking, HTTP and number formatting are
//! left to the program built around this library.

pub mod measurement;
pub mod state;
pub mod reader;
pub mod lifecycle;
pub mod exporter;
pub mod guarantees;
