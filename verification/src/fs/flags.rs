//! Open-mode flags: portable intents, accumulated into the host's bits.
use vstd::prelude::*;

verus! {

/// One intent that a caller can state when opening a file. Only the intents
/// that the host family knows are listed.
#[derive(Clone, Copy, Debug, PartialEq, Eq, Structural)]
pub enum Intent {
    /// Open for reading only.
    ReadOnly,
    /// Open for writing only.
    WriteOnly,
    /// Open for reading and writing.
    ReadWrite,
    /// Create the file if it does not exist.
    Create,
    /// Fail if the file already exists.
    Exclusive,
    /// Write at the end of the file.
    Append,
    /// Cut the file to length zero.
    Truncate,
    /// Close the descriptor when the process image is replaced.
    CloseOnExec,
    /// Fail unless the path names a directory.
    Directory,
    /// Do not follow a symbolic link at the end of the path.
    NoFollow,
    /// Let each write wait until the data is on the device.
    DataSync,
    /// Let each write wait until data and metadata are on the device.
    Sync,
    /// Let reads wait as synchronised writes do.
    ReadSync,
    /// Leave the access time as it is.
    NoAccessTime,
    /// Resolve the path without opening the file.
    PathOnly,
}

/// The host's open-mode bits for `intent`: the value of the C library's
/// constant for it on the platform that the library is built for.
pub uninterp spec fn host_bits(intent: Intent) -> i32;

/// Reads `libc::O_RDONLY`. Its value differs between platforms, so the
/// contract only gives it its name: the host's bits for [`Intent::ReadOnly`].
#[verifier::external_body]
fn o_rdonly() -> (bits: i32)
    ensures
        bits == host_bits(Intent::ReadOnly),
{
    libc::O_RDONLY
}

/// Reads `libc::O_WRONLY`. Its value differs between platforms, so the
/// contract only gives it its name: the host's bits for [`Intent::WriteOnly`].
#[verifier::external_body]
fn o_wronly() -> (bits: i32)
    ensures
        bits == host_bits(Intent::WriteOnly),
{
    libc::O_WRONLY
}

/// Reads `libc::O_RDWR`. Its value differs between platforms, so the
/// contract only gives it its name: the host's bits for [`Intent::ReadWrite`].
#[verifier::external_body]
fn o_rdwr() -> (bits: i32)
    ensures
        bits == host_bits(Intent::ReadWrite),
{
    libc::O_RDWR
}

/// Reads `libc::O_CREAT`. Its value differs between platforms, so the
/// contract only gives it its name: the host's bits for [`Intent::Create`].
#[verifier::external_body]
fn o_creat() -> (bits: i32)
    ensures
        bits == host_bits(Intent::Create),
{
    libc::O_CREAT
}

/// Reads `libc::O_EXCL`. Its value differs between platforms, so the
/// contract only gives it its name: the host's bits for [`Intent::Exclusive`].
#[verifier::external_body]
fn o_excl() -> (bits: i32)
    ensures
        bits == host_bits(Intent::Exclusive),
{
    libc::O_EXCL
}

/// Reads `libc::O_APPEND`. Its value differs between platforms, so the
/// contract only gives it its name: the host's bits for [`Intent::Append`].
#[verifier::external_body]
fn o_append() -> (bits: i32)
    ensures
        bits == host_bits(Intent::Append),
{
    libc::O_APPEND
}

/// Reads `libc::O_TRUNC`. Its value differs between platforms, so the
/// contract only gives it its name: the host's bits for [`Intent::Truncate`].
#[verifier::external_body]
fn o_trunc() -> (bits: i32)
    ensures
        bits == host_bits(Intent::Truncate),
{
    libc::O_TRUNC
}

/// Reads `libc::O_CLOEXEC`. Its value differs between platforms, so the
/// contract only gives it its name: the host's bits for [`Intent::CloseOnExec`].
#[verifier::external_body]
fn o_cloexec() -> (bits: i32)
    ensures
        bits == host_bits(Intent::CloseOnExec),
{
    libc::O_CLOEXEC
}

/// Reads `libc::O_DIRECTORY`. Its value differs between platforms, so the
/// contract only gives it its name: the host's bits for [`Intent::Directory`].
#[verifier::external_body]
fn o_directory() -> (bits: i32)
    ensures
        bits == host_bits(Intent::Directory),
{
    libc::O_DIRECTORY
}

/// Reads `libc::O_NOFOLLOW`. Its value differs between platforms, so the
/// contract only gives it its name: the host's bits for [`Intent::NoFollow`].
#[verifier::external_body]
fn o_nofollow() -> (bits: i32)
    ensures
        bits == host_bits(Intent::NoFollow),
{
    libc::O_NOFOLLOW
}

/// Reads `libc::O_DSYNC`. Its value differs between platforms, so the
/// contract only gives it its name: the host's bits for [`Intent::DataSync`].
#[verifier::external_body]
fn o_dsync() -> (bits: i32)
    ensures
        bits == host_bits(Intent::DataSync),
{
    libc::O_DSYNC
}

/// Reads `libc::O_SYNC`. Its value differs between platforms, so the
/// contract only gives it its name: the host's bits for [`Intent::Sync`].
#[verifier::external_body]
fn o_sync() -> (bits: i32)
    ensures
        bits == host_bits(Intent::Sync),
{
    libc::O_SYNC
}

/// Reads `libc::O_RSYNC`. Its value differs between platforms, so the
/// contract only gives it its name: the host's bits for [`Intent::ReadSync`].
#[verifier::external_body]
fn o_rsync() -> (bits: i32)
    ensures
        bits == host_bits(Intent::ReadSync),
{
    libc::O_RSYNC
}

/// Reads `libc::O_NOATIME`. Its value differs between platforms, so the
/// contract only gives it its name: the host's bits for [`Intent::NoAccessTime`].
#[verifier::external_body]
fn o_noatime() -> (bits: i32)
    ensures
        bits == host_bits(Intent::NoAccessTime),
{
    libc::O_NOATIME
}

/// Reads `libc::O_PATH`. Its value differs between platforms, so the
/// contract only gives it its name: the host's bits for [`Intent::PathOnly`].
#[verifier::external_body]
fn o_path() -> (bits: i32)
    ensures
        bits == host_bits(Intent::PathOnly),
{
    libc::O_PATH
}

impl Intent {
    /// The host's open-mode bits for this intent.
    pub fn bits(self) -> (bits: i32)
        ensures
            bits == host_bits(self),
    {
        match self {
            Intent::ReadOnly => o_rdonly(),
            Intent::WriteOnly => o_wronly(),
            Intent::ReadWrite => o_rdwr(),
            Intent::Create => o_creat(),
            Intent::Exclusive => o_excl(),
            Intent::Append => o_append(),
            Intent::Truncate => o_trunc(),
            Intent::CloseOnExec => o_cloexec(),
            Intent::Directory => o_directory(),
            Intent::NoFollow => o_nofollow(),
            Intent::DataSync => o_dsync(),
            Intent::Sync => o_sync(),
            Intent::ReadSync => o_rsync(),
            Intent::NoAccessTime => o_noatime(),
            Intent::PathOnly => o_path(),
        }
    }
}

/// The open-mode bits accumulated for one call of the host's `open`.
///
/// Flags are only ever added: no operation clears a bit.
#[derive(Debug, Clone, Copy)]
pub struct OpenFlags {
    flags: i32,
}

impl View for OpenFlags {
    type V = i32;

    /// The accumulated bits, as they are handed to the host.
    closed spec fn view(&self) -> i32 {
        self.flags
    }
}

impl OpenFlags {
    /// Starts from bits that the caller already has in the host's encoding.
    pub fn with_flags(flags: libc::c_int) -> (r: Self)
        ensures
            r@ == flags,
    {
        Self { flags }
    }

    /// Starts with no flag set.
    pub fn new() -> (r: Self)
        ensures
            r@ == 0,
    {
        Self::with_flags(0)
    }

    /// The accumulated bits, as they are handed to the host.
    pub fn bits(&self) -> (bits: libc::c_int)
        ensures
            bits == self@,
    {
        self.flags
    }

    /// Adds one intent: its bits are OR-ed into those already there.
    pub fn with(self, intent: Intent) -> (r: Self)
        ensures
            r@ == self@ | host_bits(intent),
    {
        Self { flags: self.flags | intent.bits() }
    }

    /// Adds the intent to open for reading only.
    pub fn read_only(self) -> (r: Self)
        ensures
            r@ == self@ | host_bits(Intent::ReadOnly),
    {
        self.with(Intent::ReadOnly)
    }

    /// Adds the intent to open for writing only.
    pub fn write_only(self) -> (r: Self)
        ensures
            r@ == self@ | host_bits(Intent::WriteOnly),
    {
        self.with(Intent::WriteOnly)
    }

    /// Adds the intent to open for reading and writing.
    pub fn read_write(self) -> (r: Self)
        ensures
            r@ == self@ | host_bits(Intent::ReadWrite),
    {
        self.with(Intent::ReadWrite)
    }

    /// Adds the intent to create the file if it does not exist.
    pub fn create(self) -> (r: Self)
        ensures
            r@ == self@ | host_bits(Intent::Create),
    {
        self.with(Intent::Create)
    }

    /// Adds the intent to fail if the file already exists.
    pub fn excl(self) -> (r: Self)
        ensures
            r@ == self@ | host_bits(Intent::Exclusive),
    {
        self.with(Intent::Exclusive)
    }

    /// Adds the intent to write at the end of the file.
    pub fn append(self) -> (r: Self)
        ensures
            r@ == self@ | host_bits(Intent::Append),
    {
        self.with(Intent::Append)
    }

    /// Adds the intent to cut the file to length zero.
    pub fn trunc(self) -> (r: Self)
        ensures
            r@ == self@ | host_bits(Intent::Truncate),
    {
        self.with(Intent::Truncate)
    }

    /// Adds the intent to close the descriptor when the process image is replaced.
    pub fn cloexec(self) -> (r: Self)
        ensures
            r@ == self@ | host_bits(Intent::CloseOnExec),
    {
        self.with(Intent::CloseOnExec)
    }

    /// Adds the intent to fail unless the path names a directory.
    pub fn directory(self) -> (r: Self)
        ensures
            r@ == self@ | host_bits(Intent::Directory),
    {
        self.with(Intent::Directory)
    }

    /// Adds the intent to not follow a symbolic link at the end of the path.
    pub fn no_follow(self) -> (r: Self)
        ensures
            r@ == self@ | host_bits(Intent::NoFollow),
    {
        self.with(Intent::NoFollow)
    }

    /// Adds the intent to let each write wait until the data is on the device.
    pub fn dsync(self) -> (r: Self)
        ensures
            r@ == self@ | host_bits(Intent::DataSync),
    {
        self.with(Intent::DataSync)
    }

    /// Adds the intent to let each write wait until data and metadata are on the device.
    pub fn sync(self) -> (r: Self)
        ensures
            r@ == self@ | host_bits(Intent::Sync),
    {
        self.with(Intent::Sync)
    }

    /// Adds the intent to let reads wait as synchronised writes do.
    pub fn rsync(self) -> (r: Self)
        ensures
            r@ == self@ | host_bits(Intent::ReadSync),
    {
        self.with(Intent::ReadSync)
    }

    /// Adds the intent to leave the access time as it is.
    pub fn no_atime(self) -> (r: Self)
        ensures
            r@ == self@ | host_bits(Intent::NoAccessTime),
    {
        self.with(Intent::NoAccessTime)
    }

    /// Adds the intent to resolve the path without opening the file.
    pub fn path(self) -> (r: Self)
        ensures
            r@ == self@ | host_bits(Intent::PathOnly),
    {
        self.with(Intent::PathOnly)
    }
}

/// Flags compose in any order: adding `a` and then `b` to the bits of
/// `flags` gives the same bits as adding `b` and then `a`.
pub proof fn lemma_flags_commute(flags: OpenFlags, a: i32, b: i32)
    ensures
        (flags@ | a) | b == (flags@ | b) | a,
{
    let f = flags@;
    assert((f | a) | b == (f | b) | a) by (bit_vector);
}

/// Adding bits a second time changes nothing.
pub proof fn lemma_flags_idempotent(flags: OpenFlags, a: i32)
    ensures
        (flags@ | a) | a == flags@ | a,
{
    let f = flags@;
    assert((f | a) | a == f | a) by (bit_vector);
}

/// Flags are additive: after adding `a` to the bits of `flags`, every bit of
/// `a` is set, and every bit that was set before is still set.
pub proof fn lemma_flags_additive(flags: OpenFlags, a: i32)
    ensures
        (flags@ | a) & a == a,
        (flags@ | a) & flags@ == flags@,
{
    let f = flags@;
    assert((f | a) & a == a) by (bit_vector);
    assert((f | a) & f == f) by (bit_vector);
}

} // verus!
