//! Device communication core of a 5×5 optical microplate controller:
//! wavelength codes, per-revision address maps, the well grid, the
//! LED command encoder, the telemetry frame decoder, the stepping of a
//! timed sequence of patterns, and the list of serial ports on offer.

pub mod wavelength;
pub mod revision;
pub mod microwell;
pub mod microplate;
pub mod command;
pub mod telemetry;
pub mod sequence;
pub mod serial;
