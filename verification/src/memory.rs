//! The guest's exported linear memory, as seen by the driver.
//!
//! The driver may inspect or mutate guest memory only through the
//! bounds-checked accessors here; both refuse any range that does not lie
//! entirely within the memory's current size, and a refused access touches
//! no byte.

use vstd::prelude::*;

verus! {

/// What reading `size` bytes at `offset` yields.
pub open spec fn spec_read(mem: Seq<u8>, offset: int, size: int) -> Seq<u8> {
    mem.subrange(offset, offset + size)
}

/// The memory contents after writing `data` at `offset`.
pub open spec fn spec_write(mem: Seq<u8>, offset: int, data: Seq<u8>) -> Seq<u8> {
    mem.subrange(0, offset) + data + mem.subrange(offset + data.len(), mem.len() as int)
}

/// Whether the range of `size` bytes at `offset` lies within the memory.
pub open spec fn range_in_bounds(mem: Seq<u8>, offset: int, size: int) -> bool {
    0 <= offset && 0 <= size && offset + size <= mem.len()
}

/// A guest linear memory: a flat array of bytes.
pub struct LinearMemory {
    bytes: Vec<u8>,
}

impl View for LinearMemory {
    type V = Seq<u8>;

    closed spec fn view(&self) -> Seq<u8> {
        self.bytes@
    }
}

impl LinearMemory {
    /// Wraps the given bytes as a linear memory.
    pub fn new(bytes: Vec<u8>) -> (r: LinearMemory)
        ensures
            r@ == bytes@,
    {
        LinearMemory { bytes }
    }

    /// The memory's current size in bytes.
    pub fn size(&self) -> (r: usize)
        ensures
            r == self@.len(),
    {
        self.bytes.len()
    }

    /// Copies `size` bytes starting at `offset` out of the memory.
    ///
    /// Fails exactly when the range does not lie within the memory; a failed
    /// read yields nothing.
    pub fn read(&self, offset: u32, size: u32) -> (r: Result<Vec<u8>, ()>)
        ensures
            r is Ok <==> range_in_bounds(self@, offset as int, size as int),
            match r {
                Ok(v) => v@ == spec_read(self@, offset as int, size as int),
                Err(()) => true,
            },
    {
        let n: usize = self.bytes.len();
        let start: usize = offset as usize;
        let len: usize = size as usize;
        if start > n || len > n - start {
            return Err(());
        }
        let mut out: Vec<u8> = Vec::new();
        let mut i: usize = 0;
        while i < len
            invariant
                i <= len,
                start + len <= n == self@.len(),
                out@ == self@.subrange(start as int, start as int + i as int),
            decreases len - i,
        {
            out.push(self.bytes[start + i]);
            proof {
                assert(out@ =~= self@.subrange(start as int, start as int + (i + 1) as int));
            }
            i += 1;
        }
        Ok(out)
    }

    /// Writes `data` into the memory starting at `offset`.
    ///
    /// Fails exactly when the range does not lie within the memory; a failed
    /// write changes no byte.
    pub fn write(&mut self, offset: u32, data: &[u8]) -> (r: Result<(), ()>)
        ensures
            r is Ok <==> range_in_bounds(old(self)@, offset as int, data@.len() as int),
            match r {
                Ok(()) => final(self)@ == spec_write(old(self)@, offset as int, data@),
                Err(()) => final(self)@ == old(self)@,
            },
    {
        let n: usize = self.bytes.len();
        let start: usize = offset as usize;
        let len: usize = data.len();
        if start > n || len > n - start {
            return Err(());
        }
        let mut i: usize = 0;
        while i < len
            invariant
                i <= len,
                start + len <= n == self@.len(),
                self@.len() == old(self)@.len(),
                len == data@.len(),
                forall|j: int| 0 <= j < i ==> self@[start + j] == data@[j],
                forall|j: int|
                    0 <= j < old(self)@.len() && !(start <= j < start + i) ==> self@[j] == old(
                        self,
                    )@[j],
            decreases len - i,
        {
            self.bytes.set(start + i, data[i]);
            i += 1;
        }
        proof {
            assert(self@ =~= spec_write(old(self)@, offset as int, data@));
        }
        Ok(())
    }
}

/// Reading a range and writing the bytes read straight back at the same
/// offset leaves the memory unchanged.
pub proof fn lemma_read_then_write(mem: Seq<u8>, offset: int, size: int)
    requires
        range_in_bounds(mem, offset, size),
    ensures
        spec_write(mem, offset, spec_read(mem, offset, size)) == mem,
{
    assert(spec_write(mem, offset, spec_read(mem, offset, size)) =~= mem);
}

/// Reading a range immediately after writing it yields exactly the bytes
/// written.
pub proof fn lemma_write_then_read(mem: Seq<u8>, offset: int, data: Seq<u8>)
    requires
        range_in_bounds(mem, offset, data.len() as int),
    ensures
        spec_read(spec_write(mem, offset, data), offset, data.len() as int) == data,
{
    assert(spec_read(spec_write(mem, offset, data), offset, data.len() as int) =~= data);
}

/// A write within bounds preserves the memory's size, and a byte outside the
/// written range keeps its value.
pub proof fn lemma_write_frame(mem: Seq<u8>, offset: int, data: Seq<u8>, j: int)
    requires
        range_in_bounds(mem, offset, data.len() as int),
        0 <= j < mem.len(),
        !(offset <= j < offset + data.len()),
    ensures
        spec_write(mem, offset, data).len() == mem.len(),
        spec_write(mem, offset, data)[j] == mem[j],
{
}

} // verus!
