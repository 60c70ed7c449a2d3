//! The guest memory that the engine serves itself when a snapshot is loaded
//! with the `Uffd` backend: the bytes of the memory file, read and written
//! by offset, and the answer to each event of the userfault file descriptor.

use crate::error::{VmError, VmErrorView};
use vstd::prelude::*;

verus! {

/// The number of bytes that one page fault is answered with.
pub const PAGE_SIZE: usize = 4096;

/// The smaller of two numbers.
pub open spec fn at_most(a: int, b: int) -> int {
    if a <= b {
        a
    } else {
        b
    }
}

/// A region of memory of a fixed size.
#[derive(Debug)]
pub struct MemoryMapping {
    bytes: Vec<u8>,
}

impl View for MemoryMapping {
    type V = Seq<u8>;

    closed spec fn view(&self) -> Seq<u8> {
        self.bytes@
    }
}

impl MemoryMapping {
    /// A region of `size` bytes that is backed by no file: every byte is 0.
    pub fn new(size: usize) -> (out: MemoryMapping)
        ensures
            out@ == Seq::new(size as nat, |i: int| 0u8),
    {
        let mut bytes: Vec<u8> = Vec::new();
        let mut i: usize = 0;
        while i < size
            invariant
                i <= size,
                bytes@ == Seq::new(i as nat, |j: int| 0u8),
            decreases size - i,
        {
            bytes.push(0);
            i = i + 1;
            assert(bytes@ =~= Seq::new(i as nat, |j: int| 0u8));
        }
        MemoryMapping { bytes }
    }

    /// The region that holds `bytes`, the content of a memory file.
    pub fn from_bytes(bytes: Vec<u8>) -> (out: MemoryMapping)
        ensures
            out@ == bytes@,
    {
        MemoryMapping { bytes }
    }

    /// The number of bytes of the region.
    pub fn size(&self) -> (out: usize)
        ensures
            out == self@.len(),
    {
        self.bytes.len()
    }

    /// Copies bytes from `buf` into the region, from `offset` on: as many as
    /// `buf` has, or as the region has room for behind `offset`. An offset
    /// behind the end of the region is refused.
    pub fn write_slice(&mut self, buf: &Vec<u8>, offset: usize) -> (out: Result<usize, VmError>)
        ensures
            final(self)@.len() == old(self)@.len(),
            if offset > old(self)@.len() {
                out matches Err(e) && e@ == VmErrorView::MappingBounds && final(self)@ == old(
                    self,
                )@
            } else {
                out matches Ok(count) && count == at_most(
                    buf@.len() as int,
                    old(self)@.len() - offset,
                ) && final(self)@ == old(self)@.take(offset as int) + buf@.take(count as int)
                    + old(self)@.skip(offset + count)
            },
    {
        let size = self.bytes.len();
        if offset > size {
            return Err(VmError::MappingBounds);
        }
        let room = size - offset;
        let count = if buf.len() <= room {
            buf.len()
        } else {
            room
        };
        let mut i: usize = 0;
        assert(self.bytes@ =~= old(self)@.take(offset as int) + buf@.take(0) + old(self)@.skip(
            offset as int,
        ));
        while i < count
            invariant
                i <= count,
                count <= buf.len(),
                offset + count <= size,
                size == old(self)@.len(),
                self.bytes@ == old(self)@.take(offset as int) + buf@.take(i as int) + old(
                    self,
                )@.skip(offset + i),
            decreases count - i,
        {
            self.bytes.set(offset + i, buf[i]);
            i = i + 1;
            assert(self.bytes@ =~= old(self)@.take(offset as int) + buf@.take(i as int) + old(
                self,
            )@.skip(offset + i));
        }
        Ok(count)
    }

    /// Copies bytes from the region, from `offset` on, to the front of
    /// `buf`: as many as `buf` holds, or as the region has behind `offset`.
    /// The rest of `buf` stays. An offset behind the end of the region is
    /// refused.
    pub fn read_slice(&self, buf: &mut Vec<u8>, offset: usize) -> (out: Result<usize, VmError>)
        ensures
            final(buf)@.len() == old(buf)@.len(),
            if offset > self@.len() {
                out matches Err(e) && e@ == VmErrorView::MappingBounds && final(buf)@ == old(buf)@
            } else {
                out matches Ok(count) && count == at_most(
                    old(buf)@.len() as int,
                    self@.len() - offset,
                ) && final(buf)@ == self@.subrange(offset as int, offset + count) + old(
                    buf,
                )@.skip(count as int)
            },
    {
        let size = self.bytes.len();
        if offset > size {
            return Err(VmError::MappingBounds);
        }
        let room = size - offset;
        let count = if buf.len() <= room {
            buf.len()
        } else {
            room
        };
        let mut i: usize = 0;
        assert(buf@ =~= self@.subrange(offset as int, offset as int) + old(buf)@.skip(0));
        while i < count
            invariant
                i <= count,
                count <= buf.len(),
                buf.len() == old(buf)@.len(),
                offset + count <= size,
                size == self@.len(),
                buf@ == self@.subrange(offset as int, offset + i) + old(buf)@.skip(i as int),
            decreases count - i,
        {
            buf.set(i, self.bytes[offset + i]);
            i = i + 1;
            assert(buf@ =~= self@.subrange(offset as int, offset + i) + old(buf)@.skip(i as int));
        }
        Ok(count)
    }
}

/// What the userfault file descriptor reports.
#[derive(Clone, Copy, Debug, PartialEq, Eq, Structural)]
pub enum UffdEvent {
    /// The guest touched memory that is not there yet: `offset` is where it
    /// lies in the guest's memory, `address` where it lies in the
    /// hypervisor's. A write is answered as a read is.
    Fault { offset: usize, address: usize, write: bool },
    /// The hypervisor unmapped the guest's memory.
    Unmap,
    /// The hypervisor removed the guest's memory.
    Remove,
}

/// What to do about an event.
#[derive(Debug, PartialEq, Eq)]
pub enum UffdAction {
    /// Copy `page` to `address` with the copy mode `mode`.
    Copy { address: usize, page: Vec<u8>, mode: u64 },
    /// Stop serving: the VM is shutting down.
    Exit,
}

/// The page that answers a fault at `offset`: the bytes of `memory` from
/// there on, and zeroes where the memory ends before the page does.
pub open spec fn page_at(memory: Seq<u8>, offset: int) -> Seq<u8> {
    Seq::new(
        PAGE_SIZE as nat,
        |i: int|
            if offset + i < memory.len() {
                memory[offset + i]
            } else {
                0u8
            },
    )
}

impl MemoryMapping {
    /// Answers an event of the userfault file descriptor. A fault inside
    /// the memory is answered with its page, copied with mode 0. A fault at
    /// or behind the end of the memory is refused, and serving goes on. When
    /// the memory is unmapped or removed, serving ends.
    pub fn handle_event(&self, event: UffdEvent) -> (out: Result<UffdAction, VmError>)
        ensures
            match event {
                UffdEvent::Fault { offset, address, write } => if offset < self@.len() {
                    out matches Ok(UffdAction::Copy { address: a, page, mode }) && a == address
                        && mode == 0 && page@ == page_at(self@, offset as int)
                } else {
                    out matches Err(e) && e@ == VmErrorView::MappingBounds
                },
                UffdEvent::Unmap => out matches Ok(UffdAction::Exit),
                UffdEvent::Remove => out matches Ok(UffdAction::Exit),
            },
    {
        match event {
            UffdEvent::Fault { offset, address, write } => {
                if offset >= self.bytes.len() {
                    return Err(VmError::MappingBounds);
                }
                let mut page = MemoryMapping::new(PAGE_SIZE).bytes;
                match self.read_slice(&mut page, offset) {
                    Ok(count) => {
                        assert(page@ =~= page_at(self@, offset as int));
                        Ok(UffdAction::Copy { address, page, mode: 0 })
                    },
                    Err(error) => Err(error),
                }
            },
            UffdEvent::Unmap => Ok(UffdAction::Exit),
            UffdEvent::Remove => Ok(UffdAction::Exit),
        }
    }
}

} // verus!
