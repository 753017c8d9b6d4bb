//! A sink for formatted output that writes straight to a descriptor.
use vstd::prelude::*;
use vstd::string::*;

verus! {

/// A write that the host did not take whole. How many bytes did land is not
/// reported: a short write is a failure like any other.
#[derive(Clone, Copy, Debug, PartialEq, Eq, Structural)]
pub struct WriteError;

/// The arguments of one call of the host's `write`.
#[derive(Clone, Copy, Debug)]
pub struct WriteCall<'a> {
    /// The descriptor to write to.
    pub fd: i32,
    /// The bytes to write, all of them.
    pub bytes: &'a [u8],
}

impl<'a> WriteCall<'a> {
    /// What the host's answer `written` means: the write succeeded only if
    /// the host took every byte.
    pub fn finish(self, written: isize) -> (r: Result<(), WriteError>)
        ensures
            r is Ok <==> written == self.bytes@.len(),
    {
        if written < 0 || written as usize != self.bytes.len() {
            Err(WriteError)
        } else {
            Ok(())
        }
    }
}

/// A sink for formatted output, bound to one descriptor.
#[derive(Debug)]
pub struct CWriter {
    fd: i32,
}

impl View for CWriter {
    type V = i32;

    /// The descriptor that the sink writes to.
    closed spec fn view(&self) -> i32 {
        self.fd
    }
}

impl CWriter {
    /// A sink that writes to `fd`.
    pub fn new(fd: i32) -> (writer: Self)
        ensures
            writer@ == fd,
    {
        Self { fd }
    }

    /// A sink that writes to the process's standard output.
    pub fn stdout() -> (writer: Self)
        ensures
            writer@ == 1,
    {
        Self::new(1)
    }

    /// A sink that writes to the process's standard error.
    pub fn stderr() -> (writer: Self)
        ensures
            writer@ == 2,
    {
        Self::new(2)
    }

    /// Prepares `write` for the bytes of `s`, in one piece. The sink itself
    /// is unchanged.
    pub fn write_str<'a>(&mut self, s: &'a str) -> (call: WriteCall<'a>)
        ensures
            final(self)@ == old(self)@,
            call.fd == old(self)@,
            call.bytes@ == s.spec_bytes(),
    {
        WriteCall { fd: self.fd, bytes: s.as_bytes() }
    }
}

} // verus!
