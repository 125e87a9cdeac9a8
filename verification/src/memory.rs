//! The machine's byte-addressed memory: a growable, bounded byte buffer.
//!
//! Growth is monotone within a frame: memory never shrinks, and resizing
//! a range that is already covered leaves the buffer untouched.

use vstd::prelude::*;

use crate::types::{ExitError, ExitFatal};

verus! {

/// Memory after growing it to cover `off..off + len`; a zero-length
/// range or one already covered leaves it unchanged.
pub open spec fn mem_resized(m: Seq<u8>, off: int, len: int) -> Seq<u8> {
    if len <= 0 {
        m
    } else if off + len <= m.len() {
        m
    } else {
        m + Seq::new((off + len - m.len()) as nat, |i: int| 0u8)
    }
}

/// The `len` bytes read from memory at `off`, zero past the end.
pub open spec fn mem_read(m: Seq<u8>, off: int, len: int) -> Seq<u8> {
    Seq::new(if len <= 0 {
        0
    } else {
        len as nat
    }, |i: int| if off + i < m.len() {
        m[off + i]
    } else {
        0u8
    })
}

/// Memory after writing `len` bytes at `dst`, taken from `src` starting
/// at `src_off` and zero-padded where `src` is shorter; the buffer first
/// grows to cover the destination range.
pub open spec fn mem_copied(m: Seq<u8>, dst: int, src_off: int, len: int, src: Seq<u8>) -> Seq<u8> {
    if len <= 0 {
        m
    } else {
        let base = mem_resized(m, dst, len);
        Seq::new(
            base.len(),
            |i: int|
                if dst <= i < dst + len {
                    if src_off + (i - dst) < src.len() {
                        src[src_off + (i - dst)]
                    } else {
                        0u8
                    }
                } else {
                    base[i]
                },
        )
    }
}

/// Whether growing to cover `off..off + len` exceeds the memory bound.
pub open spec fn resize_fails(limit: int, off: int, len: int) -> bool {
    len > 0 && off + len > limit
}

/// The byte-addressed memory. Its view is the byte sequence it holds.
pub struct Memory {
    pub data: Vec<u8>,
    pub limit: usize,
}

impl View for Memory {
    type V = Seq<u8>;

    open spec fn view(&self) -> Seq<u8> {
        self.data@
    }
}

impl Memory {
    pub open spec fn wf(&self) -> bool {
        self.data@.len() <= self.limit
    }

    pub fn new(limit: usize) -> (r: Memory)
        ensures
            r@ == Seq::<u8>::empty(),
            r.limit == limit,
            r.wf(),
    {
        Memory { data: Vec::new(), limit }
    }

    pub fn len(&self) -> (r: usize)
        ensures
            r == self@.len(),
    {
        self.data.len()
    }

    /// Grow memory with zero bytes so that `offset..offset + len` is
    /// covered. A range beyond the memory bound is refused and memory is
    /// left unchanged; a zero-length or already covered range is a no-op.
    pub fn resize_offset(&mut self, offset: usize, len: usize) -> (r: Result<(), ExitError>)
        requires
            old(self).wf(),
        ensures
            final(self).wf(),
            final(self).limit == old(self).limit,
            r is Ok <==> !resize_fails(old(self).limit as int, offset as int, len as int),
            r is Ok ==> final(self)@ == mem_resized(old(self)@, offset as int, len as int),
            r is Err ==> final(self)@ == old(self)@ && r == Err::<(), ExitError>(ExitError::Other),
            final(self)@.len() >= old(self)@.len(),
            forall|i: int| 0 <= i < old(self)@.len() ==> final(self)@[i] == old(self)@[i],
    {
        if len == 0 {
            assert(mem_resized(self@, offset as int, len as int) == self@);
            return Ok(());
        }
        let end_opt = offset.checked_add(len);
        match end_opt {
            None => Err(ExitError::Other),
            Some(end) => {
                if end > self.limit {
                    Err(ExitError::Other)
                } else {
                    self.grow_to(end);
                    assert(self@ =~= mem_resized(old(self)@, offset as int, len as int));
                    Ok(())
                }
            },
        }
    }

    /// Extend with zero bytes up to length `end` (no-op if already there).
    fn grow_to(&mut self, end: usize)
        requires
            old(self).wf(),
            end <= old(self).limit,
        ensures
            final(self).wf(),
            final(self).limit == old(self).limit,
            old(self)@.len() >= end ==> final(self)@ == old(self)@,
            old(self)@.len() < end ==> final(self)@ == old(self)@ + Seq::new(
                (end - old(self)@.len()) as nat,
                |i: int| 0u8,
            ),
    {
        while self.data.len() < end
            invariant
                self.limit == old(self).limit,
                end <= self.limit,
                old(self)@.len() <= self.data@.len(),
                self.data@.len() <= end || self.data@.len() == old(self)@.len(),
                forall|i: int| 0 <= i < self.data@.len() ==> self.data@[i] == (if i < old(
                    self,
                )@.len() {
                    old(self)@[i]
                } else {
                    0u8
                }),
            decreases end - self.data@.len(),
        {
            self.data.push(0u8);
        }
        proof {
            if old(self)@.len() < end {
                assert(self@ =~= old(self)@ + Seq::new(
                    (end - old(self)@.len()) as nat,
                    |i: int| 0u8,
                ));
            } else {
                assert(self@ =~= old(self)@);
            }
        }
    }

    /// Read `len` bytes at `offset`, zero-padded past the end of memory.
    pub fn get(&self, offset: usize, len: usize) -> (r: Vec<u8>)
        ensures
            r@ == mem_read(self@, offset as int, len as int),
    {
        let mut out: Vec<u8> = Vec::new();
        let mut i: usize = 0;
        while i < len
            invariant
                i <= len,
                out@.len() == i,
                forall|j: int| 0 <= j < i ==> out@[j] == mem_read(
                    self@,
                    offset as int,
                    len as int,
                )[j],
            decreases len - i,
        {
            // offset + i may exceed usize::MAX arithmetically; compare first.
            let b: u8 = if offset < self.data.len() && i < self.data.len() - offset {
                self.data[offset + i]
            } else {
                0u8
            };
            out.push(b);
            i += 1;
        }
        proof {
            assert(out@ =~= mem_read(self@, offset as int, len as int));
        }
        out
    }

    /// Bounded copy into memory: write `len` bytes at `memory_offset`,
    /// taken from `data` starting at `data_offset`, zero-padding where the
    /// source is shorter. Grows memory to cover the destination; a
    /// destination beyond the memory bound is refused and memory is left
    /// unchanged.
    pub fn copy_large(
        &mut self,
        memory_offset: usize,
        data_offset: usize,
        len: usize,
        data: &[u8],
    ) -> (r: Result<(), ExitFatal>)
        requires
            old(self).wf(),
        ensures
            final(self).wf(),
            final(self).limit == old(self).limit,
            r is Ok <==> !resize_fails(
                old(self).limit as int,
                memory_offset as int,
                len as int,
            ),
            r is Ok ==> final(self)@ == mem_copied(
                old(self)@,
                memory_offset as int,
                data_offset as int,
                len as int,
                data@,
            ),
            r is Err ==> final(self)@ == old(self)@ && r == Err::<(), ExitFatal>(
                ExitFatal::NotSupported,
            ),
            final(self)@.len() >= old(self)@.len(),
    {
        if len == 0 {
            assert(mem_copied(self@, memory_offset as int, data_offset as int, len as int, data@)
                == self@);
            return Ok(());
        }
        let end_opt = memory_offset.checked_add(len);
        match end_opt {
            None => Err(ExitFatal::NotSupported),
            Some(end) => {
                if end > self.limit {
                    Err(ExitFatal::NotSupported)
                } else {
                    self.grow_to(end);
                    let ghost base = self.data@;
                    assert(base =~= mem_resized(old(self)@, memory_offset as int, len as int));
                    let mut i: usize = 0;
                    while i < len
                        invariant
                            i <= len,
                            memory_offset + len <= self.data@.len(),
                            self.limit == old(self).limit,
                            self.data@.len() <= self.limit,
                            self.data@.len() == base.len(),
                            forall|j: int| 0 <= j < self.data@.len() ==> self.data@[j] == (
                                if memory_offset <= j < memory_offset + i {
                                    if data_offset + (j - memory_offset) < data@.len() {
                                        data@[data_offset + (j - memory_offset)]
                                    } else {
                                        0u8
                                    }
                                } else {
                                    base[j]
                                }),
                        decreases len - i,
                    {
                        let b: u8 = if data_offset < data.len() && i < data.len() - data_offset {
                            data[data_offset + i]
                        } else {
                            0u8
                        };
                        self.data[memory_offset + i] = b;
                        i += 1;
                    }
                    proof {
                        assert(self@ =~= mem_copied(
                            old(self)@,
                            memory_offset as int,
                            data_offset as int,
                            len as int,
                            data@,
                        ));
                    }
                    Ok(())
                }
            },
        }
    }
}

/// Memory growth is monotone: resizing never shortens the buffer and
/// keeps every byte already present.
pub proof fn lemma_resize_monotonic(m: Seq<u8>, off: int, len: int)
    ensures
        mem_resized(m, off, len).len() >= m.len(),
        forall|i: int| 0 <= i < m.len() ==> mem_resized(m, off, len)[i] == m[i],
{
}

/// Resizing is idempotent: a range already covered (and any zero-length
/// range) leaves memory exactly as it is, so resizing twice is resizing
/// once.
pub proof fn lemma_resize_idempotent(m: Seq<u8>, off: int, len: int)
    ensures
        len > 0 && off + len <= m.len() ==> mem_resized(m, off, len) == m,
        len <= 0 ==> mem_resized(m, off, len) == m,
        mem_resized(mem_resized(m, off, len), off, len) == mem_resized(m, off, len),
{
    if len > 0 && off + len > m.len() {
        assert(mem_resized(m, off, len).len() == off + len);
        assert(mem_resized(mem_resized(m, off, len), off, len) == mem_resized(m, off, len));
    }
}

} // verus!
