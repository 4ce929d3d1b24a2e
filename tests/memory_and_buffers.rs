use std::cell::Cell;

use vision::{
    Buffer, BufferCopy, BufferTeardown, MemoryAllocation, MemoryError, MemoryProperties,
    MemoryRequirements, MEMORY_PROPERTY_DEVICE_LOCAL, MEMORY_PROPERTY_HOST_COHERENT,
    MEMORY_PROPERTY_HOST_VISIBLE,
};

fn props() -> MemoryProperties {
    MemoryProperties {
        memory_type_flags: vec![
            MEMORY_PROPERTY_DEVICE_LOCAL,
            MEMORY_PROPERTY_HOST_VISIBLE,
            MEMORY_PROPERTY_HOST_VISIBLE | MEMORY_PROPERTY_HOST_COHERENT,
            MEMORY_PROPERTY_DEVICE_LOCAL | MEMORY_PROPERTY_HOST_VISIBLE | MEMORY_PROPERTY_HOST_COHERENT,
        ],
    }
}

fn req(bits: u32) -> MemoryRequirements {
    MemoryRequirements { size: 256, alignment: 16, memory_type_bits: bits }
}

#[test]
fn first_allowed_type_with_all_properties() {
    let host = MEMORY_PROPERTY_HOST_VISIBLE | MEMORY_PROPERTY_HOST_COHERENT;
    assert_eq!(props().find_memory_type_index(req(0b1111), host), Ok(2));
    assert_eq!(props().find_memory_type_index(req(0b1011), host), Ok(3));
    assert_eq!(props().find_memory_type_index(req(0b1111), MEMORY_PROPERTY_DEVICE_LOCAL), Ok(0));
    assert_eq!(props().find_memory_type_index(req(0b0010), 0), Ok(1));
}

#[test]
fn memory_type_choice_is_deterministic() {
    let p = props();
    let host = MEMORY_PROPERTY_HOST_VISIBLE;
    let first = p.find_memory_type_index(req(0b1110), host);
    for _ in 0..5 {
        assert_eq!(p.find_memory_type_index(req(0b1110), host), first);
    }
    assert_eq!(first, Ok(1));
}

#[test]
fn no_matching_memory_type_fails() {
    assert_eq!(
        props().find_memory_type_index(req(0b0011), MEMORY_PROPERTY_HOST_COHERENT),
        Err(MemoryError::NoSuitableMemoryType)
    );
    assert_eq!(props().find_memory_type_index(req(0), 0), Err(MemoryError::NoSuitableMemoryType));
    let none = MemoryProperties { memory_type_flags: vec![] };
    assert_eq!(none.find_memory_type_index(req(u32::MAX), 0), Err(MemoryError::NoSuitableMemoryType));
}

#[test]
fn allocation_covers_required_size() {
    assert_eq!(
        props().memory_allocation(req(0b1000), MEMORY_PROPERTY_DEVICE_LOCAL),
        Ok(MemoryAllocation { allocation_size: 256, memory_type_index: 3 })
    );
}

#[test]
fn create_allocates_then_binds_at_offset_zero() {
    let allocated: Cell<Option<MemoryAllocation>> = Cell::new(None);
    let bound: Cell<Option<(u64, u64, u64)>> = Cell::new(None);
    let b = Buffer::create(
        11,
        req(0b0100),
        &props(),
        MEMORY_PROPERTY_HOST_VISIBLE,
        |a| {
            allocated.set(Some(a));
            22
        },
        |buf, mem, off| {
            assert!(allocated.get().is_some());
            bound.set(Some((buf, mem, off)));
        },
    )
    .unwrap();
    assert_eq!(allocated.get(), Some(MemoryAllocation { allocation_size: 256, memory_type_index: 2 }));
    assert_eq!(bound.get(), Some((11, 22, 0)));
    assert_eq!((b.buffer(), b.memory(), b.size()), (11, 22, 256));
    assert_eq!(b.mapped_pointer(), None);
}

#[test]
fn create_without_memory_type_allocates_nothing() {
    let called = Cell::new(false);
    let r = Buffer::create(11, req(0b0001), &props(), MEMORY_PROPERTY_HOST_VISIBLE, |_| {
        called.set(true);
        22
    }, |_, _, _| called.set(true));
    assert!(matches!(r, Err(MemoryError::NoSuitableMemoryType)));
    assert!(!called.get());
}

#[test]
fn mapping_twice_returns_same_pointer() {
    let mut b = Buffer::new(1, 2, 64);
    let maps = Cell::new(0);
    let p1 = b.map_memory(|| {
        maps.set(maps.get() + 1);
        0x1000
    });
    let p2 = b.map_memory(|| {
        maps.set(maps.get() + 1);
        0x2000
    });
    assert_eq!(p1, 0x1000);
    assert_eq!(p2, 0x1000);
    assert_eq!(maps.get(), 1);
    assert_eq!(b.mapped_pointer(), Some(0x1000));
}

#[test]
fn unmapping_twice_unmaps_once() {
    let mut b = Buffer::new(1, 2, 64);
    let unmaps = Cell::new(0);
    b.map_memory(|| 0x1000);
    assert!(b.unmap_memory(|| unmaps.set(unmaps.get() + 1)));
    assert!(!b.unmap_memory(|| unmaps.set(unmaps.get() + 1)));
    assert_eq!(unmaps.get(), 1);
    assert_eq!(b.mapped_pointer(), None);
    let mut fresh = Buffer::new(1, 2, 64);
    assert!(!fresh.unmap_memory(|| unmaps.set(unmaps.get() + 1)));
    assert_eq!(unmaps.get(), 1);
}

#[test]
fn copy_region_spans_first_bytes() {
    let src = Buffer::new(1, 2, 64);
    let dst = Buffer::new(3, 4, 128);
    assert_eq!(dst.cmd_copy(&src, 64), BufferCopy { src_offset: 0, dst_offset: 0, size: 64 });
}

#[test]
fn teardown_unmaps_before_destroying_and_freeing() {
    let mut b = Buffer::new(1, 2, 64);
    assert_eq!(b.teardown(), vec![BufferTeardown::DestroyBuffer, BufferTeardown::FreeMemory]);
    b.map_memory(|| 0x40);
    assert_eq!(
        b.teardown(),
        vec![BufferTeardown::UnmapMemory, BufferTeardown::DestroyBuffer, BufferTeardown::FreeMemory]
    );
}
