//! Client side of the HF2 flashing protocol: framing of commands and
//! responses, the typed command catalog, and the differential flash and
//! verify planning that decides which pages must be written.

pub mod bytes;
pub mod command;
pub mod commands;
pub mod checksum;
pub mod flash;
pub mod cli;
pub mod session;
