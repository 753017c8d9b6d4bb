//! NUL-termination of paths: what a C function sees, and the three ways
//! in which a path is made ready for it.
use vstd::prelude::*;

verus! {

/// Paths shorter than this are terminated in a fixed buffer; longer ones on
/// the heap.
pub const MAX_BUF_STACK_SIZE: usize = 256;

/// Whether `bytes` holds a NUL, so that a C function reading it stops inside it.
pub open spec fn nul_terminated(bytes: Seq<u8>) -> bool {
    exists|i: int| 0 <= i < bytes.len() && bytes[i] == 0
}

/// Whether the first NUL of `bytes` is at index `n`.
pub open spec fn first_nul(bytes: Seq<u8>, n: int) -> bool {
    &&& 0 <= n < bytes.len()
    &&& bytes[n] == 0
    &&& forall|j: int| 0 <= j < n ==> bytes[j] != 0
}

/// The string that a C function reads from `bytes`: the bytes before the
/// first NUL. Meaningful where `bytes` is NUL-terminated.
pub open spec fn c_str(bytes: Seq<u8>) -> Seq<u8>
    recommends
        nul_terminated(bytes),
{
    bytes.take(choose|n: int| first_nul(bytes, n))
}

/// The bytes that the heap strategy hands to the host for `path`: the path,
/// then one NUL.
pub open spec fn heap_image(path: Seq<u8>) -> Seq<u8> {
    path.push(0u8)
}

/// The bytes that the stack strategy hands to the host for `path`: the path,
/// then NULs up to the buffer's size.
pub open spec fn stack_image(path: Seq<u8>) -> Seq<u8>
    recommends
        path.len() < MAX_BUF_STACK_SIZE,
{
    Seq::new(MAX_BUF_STACK_SIZE as nat, |i: int| if i < path.len() { path[i] } else { 0u8 })
}

/// The first NUL is unique, and `c_str` is what stands before it.
pub proof fn lemma_c_str_at(bytes: Seq<u8>, n: int)
    requires
        first_nul(bytes, n),
    ensures
        c_str(bytes) == bytes.take(n),
{
    let m = choose|m: int| first_nul(bytes, m);
    if m < n {
        assert(bytes[m] != 0);
    } else if n < m {
        assert(bytes[n] != 0);
    }
}

/// Where no NUL stands before `k` and one stands at `k` or after it, the
/// first NUL is found from `k` on.
proof fn lemma_first_nul_from(bytes: Seq<u8>, k: int) -> (n: int)
    requires
        0 <= k <= bytes.len(),
        forall|j: int| 0 <= j < k ==> bytes[j] != 0,
        exists|i: int| k <= i < bytes.len() && bytes[i] == 0,
    ensures
        first_nul(bytes, n),
    decreases bytes.len() - k,
{
    if bytes[k] == 0 {
        k
    } else {
        let i = choose|i: int| k <= i < bytes.len() && bytes[i] == 0;
        assert(k + 1 <= i);
        lemma_first_nul_from(bytes, k + 1)
    }
}

/// NUL-terminated bytes have a first NUL, and `c_str` is what stands before it.
pub proof fn lemma_first_nul_exists(bytes: Seq<u8>) -> (n: int)
    requires
        nul_terminated(bytes),
    ensures
        first_nul(bytes, n),
        c_str(bytes) == bytes.take(n),
{
    let n = lemma_first_nul_from(bytes, 0);
    lemma_c_str_at(bytes, n);
    n
}

/// Bytes that agree up to and including the first NUL of one of them are the
/// same string to a C function.
pub proof fn lemma_c_str_agree(a: Seq<u8>, b: Seq<u8>, n: int)
    requires
        first_nul(a, n),
        n < b.len(),
        forall|j: int| 0 <= j <= n ==> a[j] == b[j],
    ensures
        first_nul(b, n),
        c_str(a) == c_str(b),
{
    assert(first_nul(b, n));
    lemma_c_str_at(a, n);
    lemma_c_str_at(b, n);
    assert(a.take(n) =~= b.take(n));
}

/// The stack strategy and the heap strategy hand the host the same string,
/// for every path that the stack strategy takes.
pub proof fn lemma_stack_agrees_with_heap(path: Seq<u8>)
    requires
        path.len() < MAX_BUF_STACK_SIZE,
    ensures
        nul_terminated(stack_image(path)),
        nul_terminated(heap_image(path)),
        c_str(stack_image(path)) == c_str(heap_image(path)),
{
    let heap = heap_image(path);
    let stack = stack_image(path);
    assert(heap[path.len() as int] == 0);
    assert(stack[path.len() as int] == 0);
    let n = lemma_first_nul_exists(heap);
    if path.len() < n {
        assert(heap[path.len() as int] != 0);
    }
    lemma_c_str_agree(heap, stack, n);
}

/// A path that already ends in NUL, handed over as it is, is the same string
/// as its heap copy.
pub proof fn lemma_borrowed_agrees_with_heap(path: Seq<u8>)
    requires
        path.len() > 0,
        path.last() == 0,
    ensures
        nul_terminated(path),
        nul_terminated(heap_image(path)),
        c_str(path) == c_str(heap_image(path)),
{
    let heap = heap_image(path);
    assert(path[path.len() - 1] == 0);
    assert(heap[path.len() as int] == 0);
    let n = lemma_first_nul_exists(path);
    lemma_c_str_agree(path, heap, n);
}

/// A path without a NUL reaches the host whole, whichever strategy copies it.
pub proof fn lemma_plain_path_is_kept(path: Seq<u8>)
    requires
        forall|i: int| 0 <= i < path.len() ==> path[i] != 0,
    ensures
        c_str(heap_image(path)) == path,
{
    let heap = heap_image(path);
    assert(first_nul(heap, path.len() as int));
    lemma_c_str_at(heap, path.len() as int);
    assert(heap.take(path.len() as int) =~= path);
}

/// A path made ready for the host: bytes that hold a NUL.
pub enum NulTerminated<'a> {
    /// The caller's own bytes, which already end in NUL. Nothing was copied.
    Borrowed(&'a [u8]),
    /// A copy in a fixed buffer, followed by NULs.
    Stack([u8; MAX_BUF_STACK_SIZE]),
    /// A copy on the heap, followed by one NUL.
    Heap(Vec<u8>),
}

impl<'a> NulTerminated<'a> {
    /// The bytes that the host is handed.
    pub open spec fn bytes(&self) -> Seq<u8> {
        match self {
            NulTerminated::Borrowed(bytes) => bytes@,
            NulTerminated::Stack(buf) => buf@,
            NulTerminated::Heap(buf) => buf@,
        }
    }

    /// The bytes that the host is handed.
    pub fn as_bytes(&self) -> (bytes: &[u8])
        ensures
            bytes@ == self.bytes(),
    {
        match self {
            NulTerminated::Borrowed(bytes) => bytes,
            NulTerminated::Stack(buf) => buf.as_slice(),
            NulTerminated::Heap(buf) => buf.as_slice(),
        }
    }
}

} // verus!
