//! Byte sources, and the recoverable decoding of what they deliver into text.
use core::str::Utf8Error;
use std::string::FromUtf8Error;
use vstd::prelude::*;
use vstd::utf8::*;

verus! {

/// `std::string::FromUtf8Error`: what `String::from_utf8` hands back when the
/// bytes are not UTF-8. Nothing inside it is visible to proofs.
#[verifier::external_type_specification]
#[verifier::external_body]
pub struct ExFromUtf8Error(std::string::FromUtf8Error);

/// `core::str::Utf8Error`: where and how a byte sequence stops being UTF-8.
/// Nothing inside it is visible to proofs.
#[verifier::external_type_specification]
#[verifier::external_body]
pub struct ExUtf8Error(core::str::Utf8Error);

/// The bytes whose conversion to a string failed with `e`.
pub uninterp spec fn attempted_bytes(e: FromUtf8Error) -> Vec<u8>;

/// Where and how `bytes` stop being UTF-8, as the standard library's
/// validation reports it. Meaningful where `bytes` are not valid UTF-8.
pub uninterp spec fn utf8_failure(bytes: Seq<u8>) -> Utf8Error;

/// The index that `Utf8Error::valid_up_to` gives for `failure`.
pub uninterp spec fn utf8_valid_up_to(failure: Utf8Error) -> usize;

/// Whether the first `n` of `bytes` are UTF-8 and no longer prefix is: `n` is
/// where the first invalid sequence starts.
pub open spec fn longest_valid_prefix(bytes: Seq<u8>, n: int) -> bool {
    &&& 0 <= n <= bytes.len()
    &&& valid_utf8(bytes.take(n))
    &&& forall|m: int| n < m <= bytes.len() ==> !valid_utf8(#[trigger] bytes.take(m))
}

/// `String::from_utf8` succeeds exactly on valid UTF-8 and then keeps the
/// bytes as the string's encoding; on failure the error holds the very bytes
/// that were handed in.
pub assume_specification[ String::from_utf8 ](vec: Vec<u8>) -> (r: Result<String, FromUtf8Error>)
    ensures
        match r {
            Ok(s) => valid_utf8(vec@) && encode_utf8(s@) == vec@,
            Err(e) => !valid_utf8(vec@) && attempted_bytes(e)@ == vec@,
        },
;

/// `FromUtf8Error::into_bytes` gives back the bytes whose conversion failed.
pub assume_specification[ FromUtf8Error::into_bytes ](e: FromUtf8Error) -> (bytes: Vec<u8>)
    ensures
        bytes == attempted_bytes(e),
;

/// `FromUtf8Error::utf8_error` gives the failure that validation reported
/// for the bytes whose conversion failed. It depends on those bytes alone,
/// and its index is the greatest up to which they are UTF-8.
pub assume_specification[ FromUtf8Error::utf8_error ](e: &FromUtf8Error) -> (failure: Utf8Error)
    ensures
        failure == utf8_failure(attempted_bytes(*e)@),
        longest_valid_prefix(attempted_bytes(*e)@, utf8_valid_up_to(failure) as int),
;

/// `Utf8Error::valid_up_to` gives the index recorded in the failure.
pub assume_specification[ Utf8Error::valid_up_to ](e: &Utf8Error) -> (index: usize)
    ensures
        index == utf8_valid_up_to(*e),
;

/// A failed read into text. It always carries the caller's buffer, and, when
/// the bytes were read but are not UTF-8, the decoding failure.
#[derive(Debug)]
pub struct Error {
    buf: Vec<u8>,
    utf8_error: Option<Utf8Error>,
}

impl Error {
    #[verifier::type_invariant]
    spec fn positioned(&self) -> bool {
        self.utf8_error matches Some(failure) ==> longest_valid_prefix(
            self.buf@,
            utf8_valid_up_to(failure) as int,
        )
    }

    /// The bytes that the error carries.
    pub closed spec fn bytes(&self) -> Seq<u8> {
        self.buf@
    }

    /// The decoding failure, absent when the read itself failed.
    pub closed spec fn failure(&self) -> Option<Utf8Error> {
        self.utf8_error
    }

    /// Hands the buffer back to the caller.
    pub fn into_bytes(self) -> (buf: Vec<u8>)
        ensures
            buf@ == self.bytes(),
    {
        self.buf
    }

    /// The decoding failure, or `None` when the read itself failed. Its
    /// index is where the carried bytes stop being UTF-8.
    pub fn utf8_error(&self) -> (failure: Option<Utf8Error>)
        ensures
            failure == self.failure(),
            failure matches Some(failure) ==> longest_valid_prefix(
                self.bytes(),
                utf8_valid_up_to(failure) as int,
            ),
    {
        proof {
            use_type_invariant(self);
        }
        self.utf8_error
    }

    /// Where the carried bytes stop being UTF-8: the length of their longest
    /// valid prefix. `None` when the read itself failed.
    pub fn valid_up_to(&self) -> (index: Option<usize>)
        ensures
            index is None <==> self.failure() is None,
            index matches Some(n) ==> self.failure() matches Some(failure) && n
                == utf8_valid_up_to(failure) && longest_valid_prefix(self.bytes(), n as int),
    {
        proof {
            use_type_invariant(self);
        }
        match &self.utf8_error {
            None => None,
            Some(failure) => Some(failure.valid_up_to()),
        }
    }
}

impl vstd::std_specs::convert::FromSpecImpl<FromUtf8Error> for Error {
    open spec fn obeys_from_spec() -> bool {
        true
    }

    /// The error keeps the bytes that were attempted and records why they
    /// are not UTF-8.
    closed spec fn from_spec(value: FromUtf8Error) -> Self {
        Error {
            buf: attempted_bytes(value),
            utf8_error: Some(utf8_failure(attempted_bytes(value)@)),
        }
    }
}

impl From<FromUtf8Error> for Error {
    /// Takes the bytes and the decoding failure out of a failed conversion.
    fn from(value: FromUtf8Error) -> (error: Self)
        ensures
            error.bytes() == attempted_bytes(value)@,
            error.failure() == Some(utf8_failure(attempted_bytes(value)@)),
    {
        let utf8_error = Some(value.utf8_error());
        Error { utf8_error, buf: value.into_bytes() }
    }
}

/// The part of `buf` that a read of `len` bytes filled.
pub open spec fn filled(buf: Seq<u8>, len: usize) -> Seq<u8> {
    if len <= buf.len() {
        buf.take(len as int)
    } else {
        buf
    }
}

/// What reading into `buf` yields as text, when the read ended with `outcome`.
pub open spec fn decoded(buf: Seq<u8>, outcome: Option<usize>, r: Result<String, Error>) -> bool {
    match outcome {
        None => r is Err && r->Err_0.bytes() == buf && r->Err_0.failure() is None,
        Some(len) => match r {
            Ok(text) => valid_utf8(filled(buf, len)) && encode_utf8(text@) == filled(buf, len),
            Err(e) => {
                &&& !valid_utf8(filled(buf, len))
                &&& e.bytes() == filled(buf, len)
                &&& e.failure() == Some(utf8_failure(filled(buf, len)))
                &&& longest_valid_prefix(
                    filled(buf, len),
                    utf8_valid_up_to(utf8_failure(filled(buf, len))) as int,
                )
            },
        },
    }
}

/// Bytes that were read but are not UTF-8 come back whole: the failure
/// carries exactly the bytes that were read, none cut off and none changed.
pub proof fn lemma_invalid_bytes_come_back(buf: Seq<u8>, len: usize, r: Result<String, Error>)
    requires
        decoded(buf, Some(len), r),
        !valid_utf8(filled(buf, len)),
    ensures
        r is Err,
        r->Err_0.bytes() == filled(buf, len),
        len >= buf.len() ==> r->Err_0.bytes() == buf,
{
}

/// Turns a buffer and the outcome of the read that filled it into text.
///
/// After a failed read the buffer comes back as it is. After a read of `len`
/// bytes the buffer is cut to those bytes, which become the text if they are
/// UTF-8 and come back in the error if they are not.
pub fn decode(buf: Vec<u8>, outcome: Option<usize>) -> (r: Result<String, Error>)
    ensures
        decoded(buf@, outcome, r),
{
    let mut buf = buf;
    match outcome {
        None => Err(Error { buf, utf8_error: None }),
        Some(len) => {
            buf.truncate(len);
            match String::from_utf8(buf) {
                Ok(text) => Ok(text),
                Err(e) => {
                    let error = Error::from(e);
                    proof {
                        use_type_invariant(&error);
                    }
                    Err(error)
                },
            }
        },
    }
}

/// A source of bytes.
pub trait Read {
    /// Reads available bytes into `buf`: `Some` with the number of bytes
    /// read, zero at the end of the stream, or `None` when the read failed.
    ///
    /// The one thing stated of every implementation is what Rust itself
    /// guarantees: the buffer keeps its length, whatever is written into it.
    fn read_bytes(&self, buf: &mut [u8]) -> (count: Option<usize>)
        ensures
            final(buf)@.len() == old(buf)@.len(),
    ;

    /// Reads into `buf` and turns the bytes read into text.
    ///
    /// Whatever `read_bytes` answered and wrote, the result is what
    /// [`decode`] makes of the buffer and the answer.
    fn read_str(&self, buf: Vec<u8>) -> (r: Result<String, Error>)
        ensures
            exists|bytes: Seq<u8>, outcome: Option<usize>|
                bytes.len() == buf@.len() && #[trigger] decoded(bytes, outcome, r),
    {
        let mut buf = buf;
        let outcome = self.read_bytes(buf.as_mut_slice());
        decode(buf, outcome)
    }
}

/// The arguments of one call of the host's `read`.
#[derive(Clone, Copy, Debug, PartialEq, Eq, Structural)]
pub struct ReadCall {
    /// The descriptor to read from.
    pub fd: i32,
    /// The size of the caller's buffer: the most that the host may write.
    pub count: usize,
}

impl ReadCall {
    /// What the host's answer `result` means: a negative value is a failure,
    /// any other is the number of bytes read, zero at the end of the stream.
    pub fn finish(self, result: isize) -> (count: Option<usize>)
        ensures
            result < 0 ==> count is None,
            result >= 0 ==> count is Some && count->Some_0 == result,
    {
        if result < 0 {
            None
        } else {
            Some(result as usize)
        }
    }
}

/// The process's standard input.
pub struct Stdin;

impl Stdin {
    /// The descriptor of the standard input.
    pub const FD: i32 = 0;

    /// Prepares `read` from the standard input into `buf`, which the host
    /// may fill up to its length. The buffer itself is not touched here.
    pub fn read_bytes(&self, buf: &mut [u8]) -> (call: ReadCall)
        ensures
            final(buf)@ == old(buf)@,
            call.fd == Stdin::FD,
            call.count == old(buf)@.len(),
    {
        ReadCall { fd: Self::FD, count: buf.len() }
    }
}

} // verus!
