//! Decisions of a small I/O runtime that sits directly on the host's C library.
//!
//! The library holds what such a runtime decides around each host call and
//! leaves the call itself to the program that embeds it. Every operation
//! comes in two steps:
//!
//! * a function that prepares the call and returns its arguments as a value
//!   ([`fs::OpenCall`], [`fs::SeekCall`], [`io::ReadCall`], [`io::WriteCall`],
//!   [`fs::CloseCall`]);
//! * `finish` on that value, which takes the host's answer and says what it
//!   means.
//!
//! Between the two the embedding program makes the call. Around them stand
//! the open-mode flags ([`fs::OpenFlags`]), the NUL-termination of paths
//! ([`fs::path`]) and the recoverable decoding of read bytes into text
//! ([`io::read`]).
pub mod fs;
pub mod io;
