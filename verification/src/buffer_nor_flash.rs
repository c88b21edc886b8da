//! A NOR flash kept in memory, used to build the config image that is then
//! written to the device. Erasing sets bytes to `0xFF`, writing can only clear
//! bits, and the furthest byte erased or written is tracked so that only the
//! used part of the buffer needs to be written to the device.

use vstd::prelude::*;

verus! {

/// The error type of the in-memory flash; no operation of it fails.
#[derive(Debug, Clone, Copy, PartialEq, Eq, Structural)]
pub struct BufferNorFlashError;

pub struct BufferNorFlash {
    data: Vec<u8>,
    max_used: usize,
}

pub open spec fn max_of(a: int, b: int) -> int {
    if a >= b {
        a
    } else {
        b
    }
}

/// `c` with the bytes `from..to` set to `0xFF`.
pub open spec fn erased(c: Seq<u8>, from: int, to: int) -> Seq<u8> {
    Seq::new(c.len(), |i: int| if from <= i < to { 0xFFu8 } else { c[i] })
}

/// `c` after NOR-writing `bytes` at `offset`: each byte keeps only the bits
/// set both in it and in the byte written.
pub open spec fn written(c: Seq<u8>, offset: int, bytes: Seq<u8>) -> Seq<u8> {
    Seq::new(
        c.len(),
        |i: int|
            if offset <= i < offset + bytes.len() {
                c[i] & bytes[i - offset]
            } else {
                c[i]
            },
    )
}

impl BufferNorFlash {
    /// The bytes of the flash.
    pub closed spec fn contents(self) -> Seq<u8> {
        self.data@
    }

    /// The end of the furthest byte erased or written so far.
    pub closed spec fn used(self) -> nat {
        self.max_used as nat
    }

    /// A flash of `size` erased bytes, none used yet.
    pub fn new(size: usize) -> (r: Self)
        ensures
            r.contents() == Seq::new(size as nat, |i: int| 0xFFu8),
            r.used() == 0,
    {
        let data = vec![0xFFu8; size];
        assert(data@ =~= Seq::new(size as nat, |i: int| 0xFFu8));
        Self { data, max_used: 0 }
    }

    /// Consumes the flash, returning its used part.
    pub fn into_buffer(self) -> (r: Vec<u8>)
        ensures
            r@ == self.contents().take(
                if self.used() <= self.contents().len() {
                    self.used() as int
                } else {
                    self.contents().len() as int
                },
            ),
    {
        let mut data = self.data;
        data.truncate(self.max_used);
        data
    }

    /// Number of bytes of the flash.
    pub fn capacity(&self) -> (r: usize)
        ensures
            r == self.contents().len(),
    {
        self.data.len()
    }

    /// Copies the bytes at `offset` into `bytes`.
    pub fn read(&self, offset: u32, bytes: &mut [u8]) -> (r: Result<(), BufferNorFlashError>)
        requires
            offset + old(bytes)@.len() <= self.contents().len(),
        ensures
            r is Ok,
            final(bytes)@ == self.contents().subrange(offset as int, offset + old(bytes)@.len()),
    {
        let offset = offset as usize;
        let n = bytes.len();
        let cap = self.data.len();
        let mut i: usize = 0;
        while i < n
            invariant
                cap == self.data@.len(),
                n == bytes@.len(),
                n == old(bytes)@.len(),
                offset + n <= self.data@.len(),
                i <= n,
                forall|j: int| 0 <= j < i ==> bytes@[j] == self.data@[offset + j],
            decreases n - i,
        {
            bytes[i] = self.data[offset + i];
            i += 1;
        }
        assert(bytes@ =~= self.contents().subrange(offset as int, offset + n));
        Ok(())
    }

    /// Sets the bytes `from..to` to `0xFF`.
    pub fn erase(&mut self, from: u32, to: u32) -> (r: Result<(), BufferNorFlashError>)
        requires
            from <= to <= old(self).contents().len(),
        ensures
            r is Ok,
            final(self).contents() == erased(old(self).contents(), from as int, to as int),
            final(self).used() == max_of(old(self).used() as int, to as int),
    {
        let from = from as usize;
        let to = to as usize;
        let mut i = from;
        while i < to
            invariant
                from <= i <= to,
                to <= self.data@.len(),
                self.data@.len() == old(self).data@.len(),
                self.max_used == old(self).max_used,
                forall|j: int|
                    0 <= j < self.data@.len() ==> #[trigger] self.data@[j] == if from <= j < i {
                        0xFFu8
                    } else {
                        old(self).data@[j]
                    },
            decreases to - i,
        {
            self.data.set(i, 0xFF);
            i += 1;
        }
        if to > self.max_used {
            self.max_used = to;
        }
        assert(self.data@ =~= erased(old(self).data@, from as int, to as int));
        Ok(())
    }

    /// Writes `bytes` at `offset`: each byte of the flash keeps only the bits
    /// set both in it and in the byte written.
    pub fn write(&mut self, offset: u32, bytes: &[u8]) -> (r: Result<(), BufferNorFlashError>)
        requires
            offset + bytes@.len() <= old(self).contents().len(),
        ensures
            r is Ok,
            final(self).contents() == written(old(self).contents(), offset as int, bytes@),
            final(self).used() == max_of(old(self).used() as int, offset + bytes@.len()),
    {
        let offset = offset as usize;
        let n = bytes.len();
        let cap = self.data.len();
        let mut i: usize = 0;
        while i < n
            invariant
                cap == self.data@.len(),
                i <= n,
                n == bytes@.len(),
                offset + n <= self.data@.len(),
                self.data@.len() == old(self).data@.len(),
                self.max_used == old(self).max_used,
                forall|j: int|
                    0 <= j < self.data@.len() ==> #[trigger] self.data@[j] == if offset <= j < offset
                        + i {
                        old(self).data@[j] & bytes@[j - offset]
                    } else {
                        old(self).data@[j]
                    },
            decreases n - i,
        {
            let b = self.data[offset + i] & bytes[i];
            self.data.set(offset + i, b);
            i += 1;
        }
        if offset + n > self.max_used {
            self.max_used = offset + n;
        }
        assert(self.data@ =~= written(old(self).data@, offset as int, bytes@));
        Ok(())
    }
}

/// Writing to erased flash stores exactly the bytes written, which a read of
/// the same range then gives back.
pub proof fn lemma_write_after_erase_reads_back(
    c: Seq<u8>,
    from: int,
    to: int,
    offset: int,
    bytes: Seq<u8>,
)
    requires
        0 <= from <= offset,
        offset + bytes.len() <= to <= c.len(),
    ensures
        written(erased(c, from, to), offset, bytes).subrange(offset, offset + bytes.len()) == bytes,
{
    let w = written(erased(c, from, to), offset, bytes).subrange(offset, offset + bytes.len());
    assert forall|i: int| 0 <= i < bytes.len() implies w[i] == bytes[i] by {
        let b = bytes[i];
        assert(0xFFu8 & b == b) by (bit_vector);
    }
    assert(w =~= bytes);
}

/// How far the used prefix reaches after writes and erases that end at
/// `ends`, in order, starting from a new flash: each call raises it to its
/// end (`write` and `erase` state one step of this).
pub open spec fn used_after(ends: Seq<int>) -> int
    decreases ends.len(),
{
    if ends.len() == 0 {
        0
    } else {
        max_of(used_after(ends.drop_last()), ends.last())
    }
}

/// After a series of writes and erases, the buffer that `into_buffer` keeps
/// reaches exactly the furthest end of any of them: it covers every byte
/// written or erased, and no more.
pub proof fn lemma_used_is_the_furthest_end(ends: Seq<int>)
    ensures
        used_after(ends) >= 0,
        forall|i: int| 0 <= i < ends.len() ==> ends[i] <= used_after(ends),
        used_after(ends) == 0 || exists|i: int| 0 <= i < ends.len() && used_after(ends) == ends[i],
    decreases ends.len(),
{
    if ends.len() > 0 {
        let rest = ends.drop_last();
        lemma_used_is_the_furthest_end(rest);
        assert forall|i: int| 0 <= i < ends.len() implies ends[i] <= used_after(ends) by {
            if i < rest.len() {
                assert(rest[i] == ends[i]);
            }
        }
        if used_after(ends) != 0 && used_after(ends) != ends.last() {
            let j = choose|j: int| 0 <= j < rest.len() && used_after(rest) == rest[j];
            assert(used_after(ends) == ends[j]);
        }
    }
}

} // verus!
