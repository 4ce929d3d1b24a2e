use vstd::prelude::*;
use crate::memory::{
    MemoryAllocation, MemoryError, MemoryProperties, MemoryRequirements, MAX_MEMORY_TYPES,
    any_match, is_first_match,
};

verus! {

/// A GPU buffer: its handle, the memory bound to it, that memory's size, and
/// where the memory is mapped on the host, if it is.
pub struct Buffer {
    buffer: u64,
    memory: u64,
    size: u64,
    mapped_pointer: Option<usize>,
}

/// One region of a buffer-to-buffer copy.
#[derive(Clone, Copy, Debug, PartialEq, Eq, Structural)]
pub struct BufferCopy {
    pub src_offset: u64,
    pub dst_offset: u64,
    pub size: u64,
}

/// One step of releasing a buffer, in the order they must run.
#[derive(Clone, Copy, Debug, PartialEq, Eq, Structural)]
pub enum BufferTeardown {
    UnmapMemory,
    DestroyBuffer,
    FreeMemory,
}

impl Buffer {
    /// The raw buffer handle.
    pub closed spec fn handle(&self) -> u64 {
        self.buffer
    }

    /// The raw handle of the memory bound to the buffer.
    pub closed spec fn memory_handle(&self) -> u64 {
        self.memory
    }

    /// The size of that memory, in bytes.
    pub closed spec fn byte_size(&self) -> u64 {
        self.size
    }

    /// Where the memory is mapped on the host, if it is.
    pub closed spec fn mapped(&self) -> Option<usize> {
        self.mapped_pointer
    }

    /// The same buffer, memory and size.
    pub open spec fn same_resource(&self, other: Buffer) -> bool {
        &&& self.handle() == other.handle()
        &&& self.memory_handle() == other.memory_handle()
        &&& self.byte_size() == other.byte_size()
    }

    /// `after` is `before` once mapped, and `pointer` is what the mapping
    /// returned: the existing pointer if the memory was already mapped.
    pub open spec fn map_step(before: Buffer, after: Buffer, pointer: usize) -> bool {
        &&& after.same_resource(before)
        &&& after.mapped() == Some(pointer)
        &&& (before.mapped() matches Some(p) ==> pointer == p)
    }

    /// `after` is `before` once unmapped; `unmapped` tells whether the memory
    /// was mapped, and so whether the driver had to unmap it.
    pub open spec fn unmap_step(before: Buffer, after: Buffer, unmapped: bool) -> bool {
        &&& after.same_resource(before)
        &&& after.mapped() is None
        &&& unmapped == before.mapped() is Some
    }

    /// Mapping twice in a row gives the same pointer and the same state, and
    /// unmapping twice in a row leaves the second with nothing to unmap.
    pub proof fn lemma_map_unmap_idempotent(
        b0: Buffer,
        b1: Buffer,
        b2: Buffer,
        p1: usize,
        p2: usize,
        u0: Buffer,
        u1: Buffer,
        u2: Buffer,
        r1: bool,
        r2: bool,
    )
        requires
            Buffer::map_step(b0, b1, p1),
            Buffer::map_step(b1, b2, p2),
            Buffer::unmap_step(u0, u1, r1),
            Buffer::unmap_step(u1, u2, r2),
        ensures
            p2 == p1,
            b2.same_resource(b1),
            b2.mapped() == b1.mapped(),
            !r2,
            u2.same_resource(u1),
            u2.mapped() == u1.mapped(),
    {
    }

    /// A buffer whose memory is bound and not mapped.
    pub fn new(buffer: u64, memory: u64, size: u64) -> (r: Self)
        ensures
            r.handle() == buffer,
            r.memory_handle() == memory,
            r.byte_size() == size,
            r.mapped() is None,
    {
        Buffer { buffer, memory, size, mapped_pointer: None }
    }

    /// Backs the created `buffer` with memory: selects the memory type for
    /// its `requirements`, has `allocate` allocate the full required size of
    /// it, then has `bind` bind that memory to the buffer at offset 0. When no
    /// memory type matches, nothing is allocated or bound and the error is
    /// returned: `allocate` may be called only with the selected allocation.
    pub fn create<A, B>(
        buffer: u64,
        requirements: MemoryRequirements,
        memory_properties: &MemoryProperties,
        required_properties: u32,
        allocate: A,
        bind: B,
    ) -> (r: Result<Buffer, MemoryError>) where A: FnOnce(MemoryAllocation) -> u64, B: FnOnce(u64, u64, u64)
        requires
            memory_properties.memory_type_flags@.len() <= MAX_MEMORY_TYPES,
            forall|a: MemoryAllocation|
                a.allocation_size == requirements.size && is_first_match(
                    memory_properties.memory_type_flags@,
                    requirements.memory_type_bits,
                    required_properties,
                    a.memory_type_index as int,
                ) ==> #[trigger] allocate.requires((a,)),
            forall|m: u64| #[trigger] bind.requires((buffer, m, 0u64)),
        ensures
            match r {
                Ok(b) => {
                    &&& b.handle() == buffer
                    &&& b.byte_size() == requirements.size
                    &&& b.mapped() is None
                    &&& exists|a: MemoryAllocation|
                        {
                            &&& a.allocation_size == requirements.size
                            &&& is_first_match(
                                memory_properties.memory_type_flags@,
                                requirements.memory_type_bits,
                                required_properties,
                                a.memory_type_index as int,
                            )
                            &&& #[trigger] allocate.ensures((a,), b.memory_handle())
                        }
                    &&& bind.ensures((buffer, b.memory_handle(), 0u64), ())
                },
                Err(e) => e == MemoryError::NoSuitableMemoryType && !any_match(
                    memory_properties.memory_type_flags@,
                    requirements.memory_type_bits,
                    required_properties,
                ),
            },
    {
        let allocation = memory_properties.memory_allocation(requirements, required_properties)?;
        let memory = allocate(allocation);
        bind(buffer, memory, 0);
        Ok(Buffer::new(buffer, memory, requirements.size))
    }

    pub fn buffer(&self) -> (r: u64)
        ensures
            r == self.handle(),
    {
        self.buffer
    }

    pub fn memory(&self) -> (r: u64)
        ensures
            r == self.memory_handle(),
    {
        self.memory
    }

    pub fn size(&self) -> (r: u64)
        ensures
            r == self.byte_size(),
    {
        self.size
    }

    /// Where the memory is mapped on the host, if it is.
    pub fn mapped_pointer(&self) -> (r: Option<usize>)
        ensures
            r == self.mapped(),
    {
        self.mapped_pointer
    }

    /// The host pointer to the memory. When it is already mapped the same
    /// pointer is returned and `map` is not called; otherwise `map` maps it
    /// and its pointer is kept.
    pub fn map_memory<F>(&mut self, map: F) -> (r: usize) where F: FnOnce() -> usize
        requires
            old(self).mapped() is None ==> map.requires(()),
        ensures
            Buffer::map_step(*old(self), *final(self), r),
            old(self).mapped() is None ==> map.ensures((), r),
    {
        match self.mapped_pointer {
            Some(p) => p,
            None => {
                let p = map();
                self.mapped_pointer = Some(p);
                p
            },
        }
    }

    /// Ends the host mapping. `unmap` is called, and `true` returned, only
    /// when the memory was mapped; otherwise nothing happens.
    pub fn unmap_memory<F>(&mut self, unmap: F) -> (r: bool) where F: FnOnce()
        requires
            old(self).mapped() is Some ==> unmap.requires(()),
        ensures
            Buffer::unmap_step(*old(self), *final(self), r),
            r ==> unmap.ensures((), ()),
    {
        match self.mapped_pointer.take() {
            Some(_) => {
                unmap();
                true
            },
            None => false,
        }
    }

    /// The region that copies the first `size` bytes of `src` to the start
    /// of this buffer.
    pub fn cmd_copy(&self, src: &Buffer, size: u64) -> (r: BufferCopy)
        requires
            size <= src.byte_size(),
            size <= self.byte_size(),
        ensures
            r == (BufferCopy { src_offset: 0, dst_offset: 0, size }),
    {
        BufferCopy { src_offset: 0, dst_offset: 0, size }
    }

    /// How the buffer is released: unmapped if it is mapped, then the buffer
    /// destroyed, and only then its memory freed.
    pub fn teardown(&self) -> (r: Vec<BufferTeardown>)
        ensures
            r@ == if self.mapped() is Some {
                seq![
                    BufferTeardown::UnmapMemory,
                    BufferTeardown::DestroyBuffer,
                    BufferTeardown::FreeMemory,
                ]
            } else {
                seq![BufferTeardown::DestroyBuffer, BufferTeardown::FreeMemory]
            },
    {
        let mut steps: Vec<BufferTeardown> = Vec::new();
        if self.mapped_pointer.is_some() {
            steps.push(BufferTeardown::UnmapMemory);
        }
        steps.push(BufferTeardown::DestroyBuffer);
        steps.push(BufferTeardown::FreeMemory);
        proof {
            if self.mapped() is Some {
                assert(steps@ =~= seq![
                    BufferTeardown::UnmapMemory,
                    BufferTeardown::DestroyBuffer,
                    BufferTeardown::FreeMemory,
                ]);
            } else {
                assert(steps@ =~= seq![BufferTeardown::DestroyBuffer, BufferTeardown::FreeMemory]);
            }
        }
        steps
    }
}

} // verus!
