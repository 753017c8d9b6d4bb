//! File handles, and the host calls that open, reposition, read, write and
//! release them.
pub mod flags;
pub mod path;

pub use crate::fs::flags::{Intent, OpenFlags};
pub use crate::fs::path::{NulTerminated, MAX_BUF_STACK_SIZE};

use crate::fs::path::{
    c_str, heap_image, lemma_borrowed_agrees_with_heap, lemma_stack_agrees_with_heap,
    nul_terminated, stack_image,
};
use crate::io::read::ReadCall;
use crate::io::writerc::{CWriter, WriteCall};
use vstd::prelude::*;
use vstd::string::*;

verus! {

/// Where a seek offset is counted from.
#[derive(Clone, Copy, Debug, PartialEq, Eq, Structural)]
pub enum Origin {
    /// From the start of the file.
    Beginning,
    /// From the current position.
    Current,
    /// From the end of the file.
    End,
}

/// `libc::SEEK_SET`, which is 0 on every platform of the C library's bindings.
#[verifier::external_body]
fn seek_set() -> (whence: i32)
    ensures
        whence == 0,
{
    libc::SEEK_SET
}

/// `libc::SEEK_CUR`, which is 1 on every platform of the C library's bindings.
#[verifier::external_body]
fn seek_cur() -> (whence: i32)
    ensures
        whence == 1,
{
    libc::SEEK_CUR
}

/// `libc::SEEK_END`, which is 2 on every platform of the C library's bindings.
#[verifier::external_body]
fn seek_end() -> (whence: i32)
    ensures
        whence == 2,
{
    libc::SEEK_END
}

impl Origin {
    /// The host's constant for this origin, as a number.
    pub open spec fn spec_whence(self) -> i32 {
        match self {
            Origin::Beginning => 0,
            Origin::Current => 1,
            Origin::End => 2,
        }
    }

    /// The host's constant for this origin.
    #[verifier::when_used_as_spec(spec_whence)]
    pub fn whence(self) -> (whence: i32)
        ensures
            whence == self.spec_whence(),
    {
        match self {
            Origin::Beginning => seek_set(),
            Origin::Current => seek_cur(),
            Origin::End => seek_end(),
        }
    }
}

/// Origins map one to one to the host's constants.
pub proof fn lemma_whence_injective(a: Origin, b: Origin)
    requires
        a.whence() == b.whence(),
    ensures
        a == b,
{
}

/// The arguments of one call of the host's `open`.
pub struct OpenCall<'a> {
    path: NulTerminated<'a>,
    flags: i32,
}

impl<'a> OpenCall<'a> {
    #[verifier::type_invariant]
    spec fn terminated(&self) -> bool {
        nul_terminated(self.path.bytes())
    }

    /// The path argument.
    pub closed spec fn spec_path(&self) -> NulTerminated<'a> {
        self.path
    }

    /// The flags argument.
    pub closed spec fn spec_flags(&self) -> i32 {
        self.flags
    }

    /// The path argument. It holds a NUL, so the host stops reading inside it.
    pub fn path(&self) -> (path: &NulTerminated<'a>)
        ensures
            *path == self.spec_path(),
            nul_terminated(path.bytes()),
    {
        proof {
            use_type_invariant(self);
        }
        &self.path
    }

    /// The flags argument.
    pub fn flags(&self) -> (flags: i32)
        ensures
            flags == self.spec_flags(),
    {
        self.flags
    }

    /// What the host's answer `fd` means: a negative value is a failure, any
    /// other is the descriptor of the opened file.
    pub fn finish(self, fd: i32) -> (file: Option<File>)
        ensures
            fd < 0 ==> file is None,
            fd >= 0 ==> file is Some && file->Some_0@ == fd,
    {
        if fd < 0 {
            None
        } else {
            Some(File { fd })
        }
    }
}

/// The arguments of one call of the host's `lseek`.
#[derive(Clone, Copy, Debug, PartialEq, Eq, Structural)]
pub struct SeekCall {
    /// The descriptor to reposition.
    pub fd: i32,
    /// The signed distance from the origin, in bytes.
    pub offset: i64,
    /// The host's constant for the origin.
    pub whence: i32,
}

impl SeekCall {
    /// What the host's answer `res` means: a negative value is a failure, any
    /// other is the new position, counted from the start of the file. Where
    /// `isize` is narrower than the host's offsets, the position is cut to
    /// its width.
    pub fn finish(self, res: i64) -> (position: Option<isize>)
        ensures
            res < 0 ==> position is None,
            res >= 0 ==> position == Some(res as isize),
    {
        if res < 0 {
            None
        } else {
            Some(res as isize)
        }
    }
}

/// One open file descriptor.
///
/// A value exists only for a descriptor that the host returned from a
/// successful `open`, and it is not duplicated: whoever holds the value owns
/// the descriptor.
#[derive(Debug)]
pub struct File {
    fd: i32,
}

impl View for File {
    type V = i32;

    /// The descriptor.
    closed spec fn view(&self) -> i32 {
        self.fd
    }
}

impl File {
    #[verifier::type_invariant]
    spec fn valid(&self) -> bool {
        self.fd >= 0
    }

    /// The descriptor, which is never negative.
    pub fn fd(&self) -> (fd: i32)
        ensures
            fd == self@,
            fd >= 0,
    {
        proof {
            use_type_invariant(self);
        }
        self.fd
    }

    /// Prepares `open` for a path that already holds a NUL: the caller's
    /// bytes go to the host as they are.
    pub fn open_nt<'a>(path: &'a [u8], flags: OpenFlags) -> (call: OpenCall<'a>)
        requires
            nul_terminated(path@),
        ensures
            call.spec_path() == NulTerminated::Borrowed(path),
            call.spec_flags() == flags@,
    {
        OpenCall { path: NulTerminated::Borrowed(path), flags: flags.bits() }
    }

    /// Prepares `open` with the path copied into a fixed buffer.
    pub fn open_no_alloc(path: &[u8], flags: OpenFlags) -> (call: OpenCall<'static>)
        requires
            path@.len() < MAX_BUF_STACK_SIZE,
        ensures
            call.spec_path() matches NulTerminated::Stack(buf) && buf@ == stack_image(path@),
            call.spec_flags() == flags@,
    {
        let mut buf = [0u8; MAX_BUF_STACK_SIZE];
        let mut i: usize = 0;
        while i < path.len()
            invariant
                i <= path@.len() < MAX_BUF_STACK_SIZE,
                forall|j: int| 0 <= j < i ==> buf@[j] == path@[j],
                forall|j: int| i <= j < MAX_BUF_STACK_SIZE ==> buf@[j] == 0,
            decreases path@.len() - i,
        {
            buf[i] = path[i];
            i += 1;
        }
        buf[path.len()] = 0;
        proof {
            assert(buf@ =~= stack_image(path@));
            lemma_stack_agrees_with_heap(path@);
        }
        OpenCall { path: NulTerminated::Stack(buf), flags: flags.bits() }
    }

    /// Prepares `open` with the path copied to the heap.
    pub fn open_alloc(path: &[u8], flags: OpenFlags) -> (call: OpenCall<'static>)
        requires
            path@.len() < usize::MAX,
        ensures
            call.spec_path() matches NulTerminated::Heap(buf) && buf@ == heap_image(path@),
            call.spec_flags() == flags@,
    {
        let mut buf = Vec::with_capacity(path.len() + 1);
        buf.extend_from_slice(path);
        buf.push(0);
        proof {
            assert(buf@ =~= heap_image(path@));
            assert(buf@[path@.len() as int] == 0);
        }
        OpenCall { path: NulTerminated::Heap(buf), flags: flags.bits() }
    }

    /// Prepares `open` for any path. An empty path is refused; a path that
    /// ends in NUL goes to the host as it is; a shorter one than
    /// [`MAX_BUF_STACK_SIZE`] is copied into a fixed buffer; any other is
    /// copied to the heap.
    pub fn open<'a>(path: &'a [u8], flags: OpenFlags) -> (call: Option<OpenCall<'a>>)
        requires
            path@.len() < usize::MAX,
        ensures
            path@.len() == 0 <==> call is None,
            call matches Some(call) ==> {
                &&& call.spec_flags() == flags@
                &&& nul_terminated(call.spec_path().bytes())
                &&& c_str(call.spec_path().bytes()) == c_str(heap_image(path@))
                &&& match call.spec_path() {
                    NulTerminated::Borrowed(bytes) => path@.last() == 0 && bytes == path,
                    NulTerminated::Stack(buf) => path@.last() != 0 && path@.len()
                        < MAX_BUF_STACK_SIZE && buf@ == stack_image(path@),
                    NulTerminated::Heap(buf) => path@.last() != 0 && path@.len()
                        >= MAX_BUF_STACK_SIZE && buf@ == heap_image(path@),
                }
            },
    {
        if path.len() == 0 {
            return None;
        }
        if path[path.len() - 1] == 0 {
            proof {
                lemma_borrowed_agrees_with_heap(path@);
            }
            Some(File::open_nt(path, flags))
        } else if path.len() < MAX_BUF_STACK_SIZE {
            proof {
                lemma_stack_agrees_with_heap(path@);
            }
            Some(File::open_no_alloc(path, flags))
        } else {
            proof {
                assert(heap_image(path@)[path@.len() as int] == 0);
            }
            Some(File::open_alloc(path, flags))
        }
    }

    /// Prepares `lseek`: the descriptor, the offset and the host's constant
    /// for the origin. The handle itself is unchanged.
    pub fn seek(&mut self, offset: isize, origin: Origin) -> (call: SeekCall)
        ensures
            final(self)@ == old(self)@,
            call.fd == old(self)@,
            call.offset == offset,
            call.whence == origin.whence(),
    {
        SeekCall { fd: self.fd, offset: offset as i64, whence: origin.whence() }
    }

    /// Prepares `read` from this file into `buf`, which the host may fill
    /// up to its length. The buffer itself is not touched here.
    pub fn read_bytes(&self, buf: &mut [u8]) -> (call: ReadCall)
        ensures
            final(buf)@ == old(buf)@,
            call.fd == self@,
            call.count == old(buf)@.len(),
    {
        ReadCall { fd: self.fd, count: buf.len() }
    }

    /// Prepares `write` of the bytes of `s` to this file, in one piece. The
    /// handle itself is unchanged.
    pub fn write_str<'a>(&mut self, s: &'a str) -> (call: WriteCall<'a>)
        ensures
            final(self)@ == old(self)@,
            call.fd == old(self)@,
            call.bytes@ == s.spec_bytes(),
    {
        CWriter::new(self.fd).write_str(s)
    }

    /// Ends the ownership of the descriptor and prepares `close` for it, and
    /// for no other.
    pub fn close(self) -> (call: CloseCall)
        ensures
            call.fd == self@,
    {
        CloseCall { fd: self.fd }
    }
}

/// The argument of one call of the host's `close`.
#[derive(Debug, PartialEq, Eq, Structural)]
pub struct CloseCall {
    /// The descriptor to release.
    pub fd: i32,
}

impl CloseCall {
    /// What the host's answer `res` means: only zero reports that the
    /// descriptor was released. After any other answer the state of the
    /// descriptor table is unknown, and the program cannot go on.
    pub fn finish(self, res: i32) -> (released: bool)
        ensures
            released <==> res == 0,
    {
        res == 0
    }
}

} // verus!
