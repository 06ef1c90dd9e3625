use armkernel::memory::{
    PageAllocator, MAX_BITMAP_SIZE, MAX_PAGE_COUNT, MAX_RAM_END, PAGE_SIZE, RAM_START,
};

fn fresh() -> PageAllocator {
    let mut memory = PageAllocator::new();
    memory.init_memory(0x4008_0123);
    memory
}

/// An allocator of `pages` pages.
fn small(pages: usize) -> PageAllocator {
    let mut memory = PageAllocator::new();
    memory.init_memory(MAX_RAM_END - pages * PAGE_SIZE);
    memory
}

#[test]
fn limits_follow_from_the_board() {
    assert_eq!(PAGE_SIZE, 4096);
    assert_eq!(RAM_START, 0x4000_0000);
    assert_eq!(MAX_RAM_END, 0x6000_0000);
    assert_eq!(MAX_PAGE_COUNT, 131072);
    assert_eq!(MAX_BITMAP_SIZE, 16384);
}

#[test]
fn new_allocator_manages_nothing() {
    let mut memory = PageAllocator::new();
    assert_eq!(memory.page_count, 0);
    assert_eq!(memory.ram_end, MAX_RAM_END);
    assert_eq!(memory.alloc_page(), None);
}

#[test]
fn init_takes_every_page_behind_the_kernel() {
    let memory = fresh();
    assert_eq!(memory.kernel_end, 0x4008_0123);
    assert_eq!(memory.first_free_page, 0x4008_1000);
    assert_eq!(memory.page_count, (0x6000_0000 - 0x4008_1000) / 4096);
    assert_eq!(memory.bitmap_size, (memory.page_count + 7) / 8);
    assert!(!memory.is_page_used(0));
    assert!(!memory.is_page_used(memory.page_count - 1));
}

#[test]
fn init_at_a_page_boundary_wastes_nothing() {
    let mut memory = PageAllocator::new();
    memory.init_memory(RAM_START);
    assert_eq!(memory.first_free_page, RAM_START);
    assert_eq!(memory.page_count, MAX_PAGE_COUNT);
    assert_eq!(memory.bitmap_size, MAX_BITMAP_SIZE);
    let mut memory = PageAllocator::new();
    memory.init_memory(MAX_RAM_END);
    assert_eq!(memory.page_count, 0);
    assert_eq!(memory.alloc_page(), None);
}

#[test]
fn init_clears_the_bits_of_its_pages_alone() {
    let mut memory = PageAllocator::new();
    memory.bitmap[0] = 0xFF;
    memory.bitmap[1] = 0xFF;
    memory.bitmap[2] = 0xFF;
    memory.init_memory(MAX_RAM_END - 9 * PAGE_SIZE);
    assert_eq!(memory.bitmap_size, 2);
    assert_eq!(memory.bitmap[0], 0);
    assert_eq!(memory.bitmap[1], 0);
    assert_eq!(memory.bitmap[2], 0xFF);
}

#[test]
fn marking_touches_one_page() {
    let mut memory = fresh();
    memory.mark_page_used(7);
    memory.mark_page_used(8);
    assert_eq!(memory.bitmap[0], 0x80);
    assert_eq!(memory.bitmap[1], 0x01);
    assert!(!memory.is_page_used(6));
    assert!(memory.is_page_used(7));
    assert!(memory.is_page_used(8));
    assert!(!memory.is_page_used(9));
    memory.mark_page_used(7);
    assert!(memory.is_page_used(7));
    memory.mark_page_free(7);
    assert!(!memory.is_page_used(7));
    assert!(memory.is_page_used(8));
}

#[test]
fn allocation_takes_the_lowest_unused_page() {
    let mut memory = fresh();
    assert_eq!(memory.alloc_page(), Some(0x4008_1000));
    assert_eq!(memory.alloc_page(), Some(0x4008_2000));
    assert_eq!(memory.alloc_page(), Some(0x4008_3000));
    memory.free_page(0x4008_2000);
    assert_eq!(memory.alloc_page(), Some(0x4008_2000));
    assert_eq!(memory.alloc_page(), Some(0x4008_4000));
}

#[test]
fn freed_page_is_reused() {
    let mut memory = fresh();
    let a = memory.alloc_page().unwrap();
    memory.free_page(a);
    assert!(!memory.is_page_used(0));
    assert_eq!(memory.alloc_page(), Some(a));
}

#[test]
fn free_undoes_allocation() {
    let mut memory = fresh();
    memory.mark_page_used(0);
    memory.mark_page_used(2);
    let before = memory.bitmap;
    let page = memory.alloc_page().unwrap();
    assert_eq!(page, 0x4008_2000);
    memory.free_page(page);
    assert!(memory.bitmap == before);
}

#[test]
fn every_page_is_given_once_and_then_none() {
    let mut memory = small(19);
    for n in 0..19 {
        let address = memory.alloc_page().unwrap();
        assert_eq!(address, MAX_RAM_END - (19 - n) * PAGE_SIZE);
    }
    let full = memory.bitmap;
    for _ in 0..5 {
        assert_eq!(memory.alloc_page(), None);
    }
    assert!(memory.bitmap == full);
    memory.free_page(MAX_RAM_END - PAGE_SIZE);
    assert_eq!(memory.alloc_page(), Some(MAX_RAM_END - PAGE_SIZE));
    assert_eq!(memory.alloc_page(), None);
}
