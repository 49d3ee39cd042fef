//! Poll-based byte-stream capabilities: non-blocking read and write
//! contracts over the buffer cursor and plain byte slices.

use crate::buf::ReadBufCursor;
use vstd::prelude::*;
use vstd::slice::slice_subrange;

verus! {

/// Completion state of one non-blocking call: either a result, or the
/// signal that no progress is currently possible and the caller will be
/// woken later. A pending call drops no result.
pub enum Poll<T> {
    Ready(T),
    Pending,
}

/// A transport failure, surfaced once from a read or write call and never
/// retried inside this layer; the code is implementation-defined.
#[derive(Clone, Copy, Debug, PartialEq, Eq, Structural)]
pub struct IoError {
    pub code: u64,
}

/// The read capability: one call is given exclusive access to a buffer
/// cursor and either fills zero or more bytes and completes, or reports
/// that it made no progress.
///
/// Every implementation may only move the cursor forward, must keep the
/// buffer well formed, and must leave already-filled data untouched.
pub trait Read {
    fn poll_read(&mut self, buf: &mut ReadBufCursor) -> (r: Poll<Result<usize, IoError>>)
        requires
            old(buf)@.wf(),
        ensures
            final(buf)@.wf(),
            final(buf)@.capacity() == old(buf)@.capacity(),
            final(buf)@.filled >= old(buf)@.filled,
            final(buf)@.filled_bytes().subrange(0, old(buf)@.filled) == old(buf)@.filled_bytes(),
            (match r {
                Poll::Ready(Result::Ok(n)) => final(buf)@.filled == old(buf)@.filled + n,
                Poll::Ready(Result::Err(_)) => true,
                Poll::Pending => final(buf)@ == old(buf)@,
            }),
    ;
}

/// The write capability: one call is given an immutable byte slice and
/// reports how many leading bytes it accepted, never more than were
/// offered; the caller resubmits the rest. `poll_shutdown` signals that
/// no more writes will be issued.
pub trait Write {
    fn poll_write(&mut self, buf: &[u8]) -> (r: Poll<Result<usize, IoError>>)
        ensures
            (match r {
                Poll::Ready(Result::Ok(n)) => n <= buf@.len(),
                Poll::Ready(Result::Err(_)) => true,
                Poll::Pending => true,
            }),
    ;

    fn poll_flush(&mut self) -> (r: Poll<Result<(), IoError>>);

    fn poll_shutdown(&mut self) -> (r: Poll<Result<(), IoError>>);
}

/// The leading bytes a short write reported accepting.
pub fn accepted_prefix(buf: &[u8], k: usize) -> (r: &[u8])
    requires
        k <= buf@.len(),
    ensures
        r@ == buf@.subrange(0, k as int),
{
    slice_subrange(buf, 0, k)
}

/// The remainder the caller is responsible for resubmitting after a
/// write accepted only `k` of the bytes.
pub fn unaccepted_tail(buf: &[u8], k: usize) -> (r: &[u8])
    requires
        k <= buf@.len(),
    ensures
        r@ == buf@.subrange(k as int, buf@.len() as int),
{
    slice_subrange(buf, k, buf.len())
}

/// The accepted prefix and the unaccepted remainder of a short write
/// partition the submitted bytes exactly: nothing is dropped and nothing
/// is delivered twice.
pub proof fn lemma_short_write_split(s: Seq<u8>, k: int)
    requires
        0 <= k <= s.len(),
    ensures
        s.subrange(0, k) + s.subrange(k, s.len() as int) == s,
{
    assert(s.subrange(0, k) + s.subrange(k, s.len() as int) =~= s);
}

} // verus!
