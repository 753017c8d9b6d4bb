//! Byte sources and formatted-output sinks.
pub mod read;
pub mod writerc;

pub use crate::io::read::{decode, Error, Read, ReadCall, Stdin};
pub use crate::io::writerc::{CWriter, WriteCall, WriteError};
