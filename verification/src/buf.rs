//! A read buffer split into a filled prefix, an initialized-but-stale
//! middle, and an untouched tail, together with the cursor protocol that
//! lets a reader fill it without ever exposing untouched storage.

use vstd::prelude::*;
use vstd::slice::slice_subrange;

verus! {

/// Abstract state of a read buffer: the backing bytes together with the
/// filled and initialized extents. Bytes in `[0, filled)` are valid data,
/// bytes in `[filled, init)` are defined but stale, and bytes in
/// `[init, bytes.len())` must never be read by any caller.
pub struct BufView {
    pub bytes: Seq<u8>,
    pub filled: int,
    pub init: int,
}

impl BufView {
    /// The invariant every operation preserves: `filled <= init <= capacity`.
    pub open spec fn wf(self) -> bool {
        0 <= self.filled <= self.init <= self.bytes.len()
    }

    pub open spec fn capacity(self) -> int {
        self.bytes.len() as int
    }

    /// How many more bytes can still be filled.
    pub open spec fn remaining(self) -> int {
        self.capacity() - self.filled
    }

    /// The caller-visible data: the filled prefix.
    pub open spec fn filled_bytes(self) -> Seq<u8> {
        self.bytes.subrange(0, self.filled)
    }

    /// Effect of writing `src` into the unfilled tail, starting at the
    /// filled mark; the extents themselves do not move.
    pub open spec fn with_tail_written(self, src: Seq<u8>) -> BufView
        recommends
            self.wf(),
            self.filled + src.len() <= self.capacity(),
    {
        BufView {
            bytes: self.bytes.subrange(0, self.filled) + src
                + self.bytes.subrange(self.filled + src.len(), self.bytes.len() as int),
            ..self
        }
    }

    /// Effect of declaring `n` further bytes initialized.
    pub open spec fn mark_init(self, n: int) -> BufView {
        BufView { init: self.init + n, ..self }
    }

    /// Effect of declaring `n` further bytes filled.
    pub open spec fn advance(self, n: int) -> BufView {
        BufView { filled: self.filled + n, ..self }
    }

    /// Effect of recycling the buffer: the filled extent is forgotten,
    /// the initialized extent is kept.
    pub open spec fn clear(self) -> BufView {
        BufView { filled: 0, ..self }
    }

    /// Effect of copying `src` into the unfilled tail and accounting for
    /// it in one step: the copied bytes become both initialized and
    /// filled.
    pub open spec fn put(self, src: Seq<u8>) -> BufView
        recommends
            self.wf(),
            self.filled + src.len() <= self.capacity(),
    {
        BufView {
            bytes: self.with_tail_written(src).bytes,
            filled: self.filled + src.len(),
            init: if self.init >= self.filled + src.len() {
                self.init
            } else {
                self.filled + src.len()
            },
        }
    }
}

/// Writing `src` into the unfilled tail, then claiming those bytes
/// initialized with `assume_init`, then claiming them filled with
/// `advance`, keeps the buffer well formed and extends the caller-visible
/// data by exactly the bytes written, unchanged.
pub proof fn lemma_fill_round_trip(v: BufView, src: Seq<u8>)
    requires
        v.wf(),
        v.init + src.len() <= v.capacity(),
    ensures
        ({
            let w = v.with_tail_written(src).mark_init(src.len() as int).advance(src.len() as int);
            w.wf() && w.filled_bytes() == v.filled_bytes() + src
        }),
{
    let w = v.with_tail_written(src).mark_init(src.len() as int).advance(src.len() as int);
    assert(w.filled_bytes() =~= v.filled_bytes() + src);
}

/// Clearing a buffer forgets the filled extent but keeps the bytes and
/// the initialized extent: a later fill may claim up to the old
/// initialized extent again without a single fresh `assume_init`.
pub proof fn lemma_clear_reuse(v: BufView, n: int)
    requires
        v.wf(),
        0 <= n <= v.init,
    ensures
        v.clear().wf(),
        v.clear().filled == 0,
        v.clear().init == v.init,
        v.clear().bytes == v.bytes,
        v.clear().advance(n).wf(),
{
}

/// A byte buffer of fixed capacity that tracks how much of it is filled
/// with valid data and how much has been written at least once. All
/// mutation goes through the cursor protocol: write into the tail, then
/// `assume_init`, then `advance`.
pub struct ReadBuf {
    data: Vec<u8>,
    filled: usize,
    init: usize,
}

impl View for ReadBuf {
    type V = BufView;

    closed spec fn view(&self) -> BufView {
        BufView { bytes: self.data@, filled: self.filled as int, init: self.init as int }
    }
}

impl ReadBuf {
    /// A fresh buffer over `cap` bytes of storage, none of it filled or
    /// initialized.
    pub fn with_capacity(cap: usize) -> (r: ReadBuf)
        ensures
            r@.wf(),
            r@.capacity() == cap,
            r@.filled == 0,
            r@.init == 0,
    {
        let mut data: Vec<u8> = Vec::new();
        while data.len() < cap
            invariant
                data@.len() <= cap,
            decreases cap - data@.len(),
        {
            data.push(0);
        }
        ReadBuf { data, filled: 0, init: 0 }
    }

    pub fn capacity(&self) -> (r: usize)
        ensures
            r == self@.capacity(),
    {
        self.data.len()
    }

    /// The number of filled bytes.
    pub fn len(&self) -> (r: usize)
        ensures
            r == self@.filled,
    {
        self.filled
    }

    /// The number of initialized bytes.
    pub fn init_len(&self) -> (r: usize)
        ensures
            r == self@.init,
    {
        self.init
    }

    /// The number of unfilled bytes.
    pub fn remaining(&self) -> (r: usize)
        requires
            self@.wf(),
        ensures
            r == self@.remaining(),
    {
        self.data.len() - self.filled
    }

    /// The filled prefix, the only data an application ever consumes.
    pub fn filled(&self) -> (r: &[u8])
        requires
            self@.wf(),
        ensures
            r@ == self@.filled_bytes(),
    {
        slice_subrange(self.data.as_slice(), 0, self.filled)
    }

    /// Recycle the buffer: the filled extent is forgotten, the initialized
    /// extent is kept, so re-filling needs no re-initialization.
    pub fn clear(&mut self)
        ensures
            final(self)@ == old(self)@.clear(),
            old(self)@.wf() ==> final(self)@.wf(),
    {
        self.filled = 0;
    }

    /// Write one byte into the unfilled tail, `i` bytes past the filled
    /// mark. This is the only way to put data into the buffer; it moves
    /// neither extent, so the byte stays invisible until `assume_init`
    /// and `advance` account for it.
    pub fn write_tail(&mut self, i: usize, b: u8)
        requires
            old(self)@.wf(),
            old(self)@.filled + i < old(self)@.capacity(),
        ensures
            final(self)@.bytes == old(self)@.bytes.update(old(self)@.filled + i, b),
            final(self)@.filled == old(self)@.filled,
            final(self)@.init == old(self)@.init,
            final(self)@.wf(),
            final(self)@.filled_bytes() == old(self)@.filled_bytes(),
    {
        proof {
            vstd::std_specs::vec::axiom_spec_len(&self.data);
        }
        let idx = self.filled + i;
        self.data[idx] = b;
        proof {
            assert(self@.filled_bytes() =~= old(self)@.filled_bytes());
        }
    }

    /// Declare that `n` further bytes past the initialized mark have just
    /// been written. Only a caller with out-of-band knowledge of the
    /// writes may make this claim; the buffer checks that it is at least
    /// length-consistent.
    pub fn assume_init(&mut self, n: usize)
        requires
            old(self)@.wf(),
            old(self)@.init + n <= old(self)@.capacity(),
        ensures
            final(self)@ == old(self)@.mark_init(n as int),
            final(self)@.wf(),
    {
        proof {
            vstd::std_specs::vec::axiom_spec_len(&self.data);
        }
        self.init = self.init + n;
    }

    /// Declare `n` further bytes filled. Deliberately forbidden from also
    /// extending the initialized extent: the write path must account for
    /// its writes through `assume_init` first, so garbage can never be
    /// smuggled past the filled mark.
    pub fn advance(&mut self, n: usize)
        requires
            old(self)@.wf(),
            old(self)@.filled + n <= old(self)@.init,
        ensures
            final(self)@ == old(self)@.advance(n as int),
            final(self)@.wf(),
    {
        self.filled = self.filled + n;
    }

    /// `advance` with the contract violation turned into a report: when
    /// `filled + n` would pass the initialized mark the buffer is left
    /// exactly as it was — never silently clamped — and `false` comes
    /// back.
    pub fn checked_advance(&mut self, n: usize) -> (ok: bool)
        ensures
            ok == (old(self)@.filled + n <= old(self)@.init),
            ok ==> final(self)@ == old(self)@.advance(n as int),
            !ok ==> final(self)@ == old(self)@,
            old(self)@.wf() ==> final(self)@.wf(),
    {
        if n <= self.init && self.filled <= self.init - n {
            self.filled = self.filled + n;
            true
        } else {
            false
        }
    }

    /// Copy `src` into the unfilled tail and account for it in one step:
    /// the copied bytes become both initialized and filled.
    pub fn put_slice(&mut self, src: &[u8])
        requires
            old(self)@.wf(),
            src@.len() <= old(self)@.remaining(),
        ensures
            final(self)@ == old(self)@.put(src@),
            final(self)@.wf(),
            final(self)@.filled_bytes() == old(self)@.filled_bytes() + src@,
    {
        let n = src.len();
        proof {
            assert(self@.bytes =~= old(self)@.with_tail_written(src@.subrange(0, 0)).bytes);
        }
        let mut i: usize = 0;
        while i < n
            invariant
                0 <= i <= n,
                n == src@.len(),
                old(self)@.wf(),
                n <= old(self)@.remaining(),
                self@.filled == old(self)@.filled,
                self@.init == old(self)@.init,
                self@.bytes == old(self)@.with_tail_written(src@.subrange(0, i as int)).bytes,
            decreases n - i,
        {
            let b = *vstd::slice::slice_index_get(src, i);
            proof {
                vstd::std_specs::vec::axiom_spec_len(&self.data);
            }
            let idx = self.filled + i;
            self.data[idx] = b;
            proof {
                assert(self@.bytes =~= old(self)@.with_tail_written(
                    src@.subrange(0, (i + 1) as int),
                ).bytes);
            }
            i = i + 1;
        }
        proof {
            vstd::std_specs::vec::axiom_spec_len(&self.data);
        }
        let grown = self.filled + n;
        if grown > self.init {
            self.init = grown;
        }
        self.filled = grown;
        proof {
            assert(src@.subrange(0, n as int) =~= src@);
            assert(self@.bytes =~= old(self)@.put(src@).bytes);
            assert(self@.filled_bytes() =~= old(self)@.filled_bytes() + src@);
        }
    }

    /// Hand the buffer to a reader for one fill attempt. Passing the
    /// buffer by value is what makes the cursor exclusive: nothing else
    /// can touch the buffer until the cursor gives it back.
    pub fn unfilled(self) -> (c: ReadBufCursor)
        ensures
            c@ == self@,
    {
        ReadBufCursor { buf: self }
    }
}

/// The write side of a read buffer, handed to a read implementation for
/// exactly one fill attempt. It can only move the extents forward, never
/// rewind them, and it exposes no way to read past the filled mark.
pub struct ReadBufCursor {
    buf: ReadBuf,
}

impl View for ReadBufCursor {
    type V = BufView;

    closed spec fn view(&self) -> BufView {
        self.buf@
    }
}

impl ReadBufCursor {
    /// How many more bytes can still be filled.
    pub fn remaining(&self) -> (r: usize)
        requires
            self@.wf(),
        ensures
            r == self@.remaining(),
    {
        self.buf.remaining()
    }

    /// Write one byte into the unfilled tail, `i` bytes past the filled
    /// mark.
    pub fn write_tail(&mut self, i: usize, b: u8)
        requires
            old(self)@.wf(),
            old(self)@.filled + i < old(self)@.capacity(),
        ensures
            final(self)@.bytes == old(self)@.bytes.update(old(self)@.filled + i, b),
            final(self)@.filled == old(self)@.filled,
            final(self)@.init == old(self)@.init,
            final(self)@.wf(),
            final(self)@.filled_bytes() == old(self)@.filled_bytes(),
    {
        self.buf.write_tail(i, b);
    }

    /// Declare that `n` further bytes past the initialized mark have just
    /// been written.
    pub fn assume_init(&mut self, n: usize)
        requires
            old(self)@.wf(),
            old(self)@.init + n <= old(self)@.capacity(),
        ensures
            final(self)@ == old(self)@.mark_init(n as int),
            final(self)@.wf(),
    {
        self.buf.assume_init(n);
    }

    /// Declare `n` further bytes filled; they must already be initialized.
    pub fn advance(&mut self, n: usize)
        requires
            old(self)@.wf(),
            old(self)@.filled + n <= old(self)@.init,
        ensures
            final(self)@ == old(self)@.advance(n as int),
            final(self)@.wf(),
    {
        self.buf.advance(n);
    }

    /// `advance` with the contract violation turned into a report.
    pub fn checked_advance(&mut self, n: usize) -> (ok: bool)
        ensures
            ok == (old(self)@.filled + n <= old(self)@.init),
            ok ==> final(self)@ == old(self)@.advance(n as int),
            !ok ==> final(self)@ == old(self)@,
            old(self)@.wf() ==> final(self)@.wf(),
    {
        self.buf.checked_advance(n)
    }

    /// Copy `src` into the unfilled tail and account for it in one step.
    pub fn put_slice(&mut self, src: &[u8])
        requires
            old(self)@.wf(),
            src@.len() <= old(self)@.remaining(),
        ensures
            final(self)@ == old(self)@.put(src@),
            final(self)@.wf(),
            final(self)@.filled_bytes() == old(self)@.filled_bytes() + src@,
    {
        self.buf.put_slice(src);
    }

    /// Give the buffer back once the fill attempt is over.
    pub fn finish(self) -> (r: ReadBuf)
        ensures
            r@ == self@,
    {
        self.buf
    }
}

} // verus!
