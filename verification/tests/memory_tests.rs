use core::ops::Range;
use gamesim::error::{Error, ERROR_MEMORY_MAP_FAILED, ERROR_OUT_OF_DEVICE_MEMORY, SUCCESS};
use gamesim::flags::MemoryFlags;
use gamesim::memory::{
    allocate_in_ranges, allocation_type, free_in_ranges, page_map_bounds, raw_allocation, raw_map_bounds,
    select_memory_type, Book, BookAllocation, Bound, MemoryPtr, MemoryType, Page, RawInfo,
};

fn raw(id: u64, size: u64) -> MemoryPtr<RawInfo> {
    MemoryPtr::new(id, RawInfo { size })
}

fn device_local() -> MemoryFlags {
    MemoryFlags::from_bits_truncate(MemoryFlags::DEVICE_LOCAL)
}

#[test]
fn allocate_takes_front_of_aligned_range() {
    let memory = raw(7, 100);
    let mut ranges = vec![0..100u64];
    let block = allocate_in_ranges(&memory, &mut ranges, 10, 1).unwrap();
    assert_eq!(block.id(), 7);
    assert_eq!(block.metadata().range, 0..10);
    assert_eq!(ranges, vec![10..100u64]);
}

#[test]
fn allocate_uses_last_fitting_range() {
    let memory = raw(3, 100);
    let mut ranges = vec![0..40u64, 50..100, 60..65];
    let block = allocate_in_ranges(&memory, &mut ranges, 20, 1).unwrap();
    assert_eq!(block.metadata().range, 50..70);
    assert_eq!(ranges, vec![0..40u64, 70..100, 60..65]);
}

#[test]
fn allocate_needs_strictly_more_room() {
    let memory = raw(3, 100);
    let mut ranges = vec![0..10u64];
    let result = allocate_in_ranges(&memory, &mut ranges, 10, 1);
    assert!(matches!(result, Err(Error::Vulkan(ERROR_OUT_OF_DEVICE_MEMORY))));
    assert_eq!(ranges, vec![0..10u64]);
}

#[test]
fn allocate_with_padding_splits_range() {
    let memory = raw(3, 100);
    let mut ranges = vec![10..100u64];
    let block = allocate_in_ranges(&memory, &mut ranges, 20, 8).unwrap();
    assert_eq!(block.metadata().range, 12..32);
    // The padded range is cut to end at the padding itself.
    assert_eq!(ranges, vec![10..2u64, 32..100]);
}

#[test]
fn free_merges_neighbours() {
    let mut ranges = vec![0..10u64, 20..30];
    free_in_ranges(&mut ranges, 10..20);
    assert_eq!(ranges, vec![0..30u64]);
}

#[test]
fn free_keeps_apart_ranges() {
    let mut ranges = vec![0..10u64];
    free_in_ranges(&mut ranges, 50..60);
    assert_eq!(ranges, vec![0..10u64, 50..60]);
}

#[test]
fn free_undoes_allocate() {
    let memory = raw(1, 64);
    let mut ranges = vec![0..64u64];
    let block = allocate_in_ranges(&memory, &mut ranges, 16, 4).unwrap();
    let freed: Range<u64> = block.metadata().range.clone();
    free_in_ranges(&mut ranges, freed);
    assert_eq!(ranges, vec![0..64u64]);
}

#[test]
fn map_bounds_of_raw_memory() {
    assert_eq!(raw_map_bounds(100, Bound::Unbounded, Bound::Unbounded), (0, 100));
    assert_eq!(raw_map_bounds(100, Bound::Excluded(9), Bound::Included(19)), (10, 10));
    assert_eq!(raw_map_bounds(100, Bound::Included(5), Bound::Excluded(7)), (5, 2));
}

#[test]
fn map_bounds_of_page_block() {
    let block = 10..30u64;
    assert_eq!(page_map_bounds(&block, Bound::Unbounded, Bound::Unbounded), Ok((10, 20)));
    assert_eq!(page_map_bounds(&block, Bound::Included(5), Bound::Excluded(15)), Ok((15, 10)));
    assert_eq!(
        page_map_bounds(&block, Bound::Included(0), Bound::Excluded(21)),
        Err(Error::Vulkan(ERROR_MEMORY_MAP_FAILED))
    );
}

#[test]
fn page_allocates_and_frees() {
    let mut page = Page::new(raw(5, 100), device_local());
    assert_eq!(page.memory().id(), 5);
    assert_eq!(page.flags(), device_local());
    let a = page.allocate(16, 16, device_local()).unwrap();
    let b = page.allocate(16, 16, device_local()).unwrap();
    assert_eq!(a.metadata().range, 0..16);
    assert_eq!(b.metadata().range, 16..32);
    page.free(a);
    // The freed block is the last range, and the last fitting range is used.
    let c = page.allocate(10, 1, device_local()).unwrap();
    assert_eq!(c.metadata().range, 0..10);
    assert_eq!(page.map(&c, Bound::Unbounded, Bound::Unbounded), None);
    assert_eq!(page.set_mapping(Err(Error::Vulkan(ERROR_MEMORY_MAP_FAILED))), Err(Error::Vulkan(ERROR_MEMORY_MAP_FAILED)));
    assert_eq!(page.mapped_base(), None);
    assert_eq!(page.set_mapping(Ok(4096)), Ok(()));
    assert_eq!(page.mapped_base(), Some(4096));
    assert_eq!(page.map(&c, Bound::Unbounded, Bound::Unbounded), Some(Ok((4096, 10))));
    assert_eq!(page.map(&c, Bound::Included(2), Bound::Excluded(5)), Some(Ok((4098, 3))));
    assert_eq!(page.map(&c, Bound::Included(2), Bound::Excluded(50)), Some(Err(Error::Vulkan(ERROR_MEMORY_MAP_FAILED))));
}

#[test]
fn page_refuses_too_large_block() {
    let mut page = Page::new(raw(5, 100), device_local());
    let r = page.allocate(100, 1, device_local());
    assert!(matches!(r, Err(Error::Vulkan(ERROR_OUT_OF_DEVICE_MEMORY))));
}

#[test]
fn book_asks_for_page_then_allocates() {
    let flags = device_local();
    let mut book = Book::new(None, Some(2), 4, 1000);
    match book.allocate(100, 1, flags) {
        Ok(BookAllocation::NeedsPage { size }) => assert_eq!(size, 1000),
        _ => panic!("expected a request for a page"),
    }
    let first = book.allocate_in_new_page(Ok(raw(9, 1000)), 100, 1, flags).ok().unwrap();
    assert_eq!(first.id(), 9);
    assert_eq!(first.metadata().page_idx, 0);
    assert_eq!(first.metadata().page_info.range, 0..100);
    assert_eq!(book.page_count(), 1);
    match book.allocate(50, 1, flags) {
        Ok(BookAllocation::Allocated(p)) => {
            assert_eq!(p.id(), 9);
            assert_eq!(p.metadata().page_idx, 0);
            assert_eq!(p.metadata().page_info.range, 100..150);
            assert_eq!(book.map(&p, Bound::Unbounded, Bound::Unbounded), None);
            assert_eq!(book.set_mapping(0, Ok(8192)), Ok(()));
            assert_eq!(book.map(&p, Bound::Unbounded, Bound::Unbounded), Some(Ok((8292, 50))));
            book.free(p);
        }
        _ => panic!("expected an allocation"),
    }
}

#[test]
fn book_refuses_block_larger_than_largest() {
    let mut book = Book::new(None, None, 4, 1000);
    let r = book.allocate(2000, 1, device_local());
    assert!(matches!(r, Err(Error::Vulkan(ERROR_OUT_OF_DEVICE_MEMORY))));
}

#[test]
fn book_asks_to_wait_when_full() {
    let flags = device_local();
    let mut book = Book::new(Some(100), Some(1), 4, 1000);
    let _ = book.allocate_in_new_page(Ok(raw(2, 100)), 90, 1, flags).ok().unwrap();
    let r = book.allocate(50, 1, flags);
    assert!(matches!(r, Ok(BookAllocation::Wait)));
}

#[test]
fn book_new_page_size_is_at_least_min_size() {
    let mut book = Book::new(Some(64), Some(4), 4, 1000);
    match book.allocate(10, 1, device_local()) {
        Ok(BookAllocation::NeedsPage { size }) => assert_eq!(size, 64),
        _ => panic!("expected a request for a page"),
    }
    match book.allocate(200, 1, device_local()) {
        Ok(BookAllocation::NeedsPage { size }) => assert_eq!(size, 200),
        _ => panic!("expected a request for a page"),
    }
}

#[test]
fn new_page_too_small_for_block() {
    let mut book = Book::new(None, Some(2), 4, 1000);
    let r = book.allocate_in_new_page(Ok(raw(4, 100)), 100, 1, device_local());
    match r {
        Err((Error::Vulkan(code), Some(memory))) => {
            assert_eq!(code, ERROR_OUT_OF_DEVICE_MEMORY);
            assert_eq!(memory.id(), 4);
            assert_eq!(memory.metadata().size, 100);
        }
        _ => panic!("expected the allocation to be handed back"),
    }
    assert_eq!(book.page_count(), 1);
    let flags = device_local();
    match book.allocate(10, 1, flags) {
        Ok(BookAllocation::NeedsPage { size }) => assert_eq!(size, 1000),
        _ => panic!("expected a request for a page"),
    }
    let p = book.allocate_in_new_page(Ok(raw(5, 1000)), 10, 1, flags).ok().unwrap();
    assert_eq!(p.metadata().page_idx, 1);
    match book.allocate(10, 1, flags) {
        Ok(BookAllocation::Allocated(q)) => assert_eq!(q.metadata().page_idx, 1),
        _ => panic!("expected an allocation from the second slot"),
    }
}

#[test]
fn failed_device_allocation_takes_a_slot() {
    let flags = device_local();
    let mut book = Book::new(None, Some(1), 4, 1000);
    let r = book.allocate_in_new_page(Err(Error::Vulkan(-2)), 10, 1, flags);
    assert!(matches!(r, Err((Error::Vulkan(-2), None))));
    assert_eq!(book.page_count(), 1);
    assert!(matches!(book.allocate(10, 1, flags), Ok(BookAllocation::Wait)));
    let stray = MemoryPtr::new(3, gamesim::memory::BookInfo { page_idx: 0, page_info: gamesim::memory::PageInfo { range: 0..10 } });
    assert_eq!(book.map(&stray, Bound::Unbounded, Bound::Unbounded), Some(Err(Error::Vulkan(ERROR_MEMORY_MAP_FAILED))));
    book.free(stray);
    assert_eq!(book.page_count(), 1);
}

#[test]
fn memory_type_selection_takes_first_match() {
    let types = vec![
        MemoryType { property_flags: 0x2, heap_index: 0 },
        MemoryType { property_flags: 0x7, heap_index: 1 },
        MemoryType { property_flags: 0x1, heap_index: 2 },
    ];
    assert_eq!(select_memory_type(&types, device_local()), Some(1));
    let mapable = MemoryFlags::from_bits_truncate(MemoryFlags::MAPABLE);
    assert_eq!(select_memory_type(&types, mapable), Some(1));
    let cached = MemoryFlags::from_bits_truncate(MemoryFlags::HOST_CACHED);
    assert_eq!(select_memory_type(&types, cached), None);
}

#[test]
fn raw_allocation_outcomes() {
    let ok = raw_allocation(256, SUCCESS, 11).unwrap();
    assert_eq!(ok.id(), 11);
    assert_eq!(ok.metadata().size, 256);
    assert!(matches!(raw_allocation(256, -2, 11), Err(Error::Vulkan(-2))));
    assert!(matches!(raw_allocation(256, SUCCESS, 0), Err(Error::Vulkan(ERROR_OUT_OF_DEVICE_MEMORY))));
}

#[test]
fn free_merges_with_both_neighbours() {
    let mut ranges = vec![0..10u64, 20..30, 40..50];
    free_in_ranges(&mut ranges, 10..20);
    assert_eq!(ranges, vec![40..50u64, 0..30]);
}

#[test]
fn allocation_type_is_first_match_or_out_of_memory() {
    let types = vec![
        MemoryType { property_flags: 0x2, heap_index: 0 },
        MemoryType { property_flags: 0x7, heap_index: 1 },
    ];
    assert_eq!(allocation_type(&types, device_local()), Ok(1));
    let cached = MemoryFlags::from_bits_truncate(MemoryFlags::HOST_CACHED);
    assert_eq!(allocation_type(&types, cached), Err(Error::Vulkan(ERROR_OUT_OF_DEVICE_MEMORY)));
}
