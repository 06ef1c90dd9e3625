use armkernel::effect::{Effect, Operation, Script};
use armkernel::memory::{PageAllocator, MAX_RAM_END, PAGE_SIZE};
use armkernel::paging::{PageTables, TableAddresses};
use armkernel::ram_test::{
    task_c, test_bitmap, test_multiple_pages, test_page_reuse, test_single_page,
    RamTest,
};

fn memory(pages: usize) -> PageAllocator {
    let mut memory = PageAllocator::new();
    memory.init_memory(MAX_RAM_END - pages * PAGE_SIZE);
    memory
}

fn tables() -> PageTables {
    let mut tables = PageTables::new();
    tables.test_page_table(&TableAddresses {
        l0: 0x4004_0000,
        l1: 0x4004_1000,
        l2_ram: 0x4004_2000,
        l2_device: 0x4004_3000,
    });
    tables
}

fn text(script: &Script) -> String {
    let mut out = String::new();
    for effect in &script.effects {
        if let Effect::Print(t) = effect {
            out.push_str(t);
        }
    }
    out
}

fn operations(script: &Script) -> Vec<Operation> {
    let mut all = Vec::new();
    for effect in &script.effects {
        if let Effect::Perform(o) = effect {
            all.push(*o);
        }
    }
    all
}

const CLOSING: &str = "L0[0] = 0x0000000040042003\nL1[0] = 0x0000000040043003\n\
    L2[0] = 0x0000000040000401\nL2[1] = 0x0000000040200401\n\n\
    ================================\n          RAM TESTED            \n\
    ================================\n";

/// Runs the check of a page that holds `bytes` from its first byte to its end,
/// and gives the stage behind it, its script and the number of bytes read.
fn check(
    start: RamTest,
    bytes: &[u8],
    memory: &mut PageAllocator,
    tables: &PageTables,
) -> (RamTest, Script, usize) {
    let mut stage = start;
    let mut read = 0;
    loop {
        let step = task_c(stage, bytes[read], memory, tables);
        read += 1;
        let (page, next_index) = match (stage, step.next) {
            (RamTest::FirstPattern { page, .. }, RamTest::FirstPattern { index, .. }) => {
                (page, index)
            }
            (RamTest::SecondPattern { page, .. }, RamTest::SecondPattern { index, .. }) => {
                (page, index)
            }
            _ => return (step.next, step.script, read),
        };
        assert_eq!(next_index, read);
        assert_eq!(text(&step.script), "");
        assert_eq!(
            operations(&step.script),
            vec![Operation::ReadByte {
                address: page + read
            }]
        );
        stage = step.next;
    }
}

#[test]
fn whole_test_passes_on_sound_memory() {
    let mut memory = memory(32);
    let tables = tables();
    let before = memory.bitmap;
    let page = MAX_RAM_END - 32 * PAGE_SIZE;
    let step = task_c(RamTest::Start, 0, &mut memory, &tables);
    assert_eq!(step.next, RamTest::Allocator);
    assert_eq!(
        text(&step.script),
        "================================\n        RAM / PAGE TEST         \n\
         ================================\nPAGE_SIZE: 4096\nRAM_START: 0x40000000\n\
         RAM_END: 0x60000000\nKERNEL_END: 0x5ffe0000\nFIRST_FREE_PAGE: 0x5ffe0000\n\
         PAGE_COUNT: 32\nBITMAP_SIZE: 4\n\nTesting page bitmap...\n"
    );
    assert!(operations(&step.script).is_empty());
    let step = task_c(step.next, 0, &mut memory, &tables);
    assert_eq!(step.next, RamTest::FirstPattern { page, index: 0 });
    assert_eq!(
        text(&step.script),
        "PASS: page bitmap\n\n\
         Testing single page allocation...\nAllocated page: 0x5ffe0000\n\
         PASS: first page address\nPASS: allocated page marked used\n\
         PASS: freed page marked free\n\nTesting multiple page allocation...\n\
         Page A: 0x5ffe0000\nPage B: 0x5ffe1000\nPage C: 0x5ffe2000\n\
         PASS: allocations are unique\nFreed A, B, C\n\nTesting page reuse...\n\
         First allocation: 0x5ffe0000\nFreed page\nSecond allocation: 0x5ffe0000\n\
         PASS: freed page was reused\n\nTesting actual RAM access...\n\
         Allocated test page: 0x5ffe0000\nWrote 0xAA to entire page\n"
    );
    let exercise = |value| {
        vec![
            Operation::Fill {
                address: page,
                length: 4096,
                value,
            },
            Operation::ReadByte { address: page },
        ]
    };
    assert_eq!(operations(&step.script), exercise(0xAA));
    assert!(memory.is_page_used(0));

    let (stage, script, read) = check(step.next, &[0xAA; 4096], &mut memory, &tables);
    assert_eq!(read, 4096);
    assert_eq!(stage, RamTest::SecondPattern { page, index: 0 });
    assert_eq!(
        text(&script),
        "PASS: entire page read back correctly\nWrote 0x55 to entire page\n"
    );
    assert_eq!(operations(&script), exercise(0x55));
    assert!(memory.is_page_used(0));

    let (stage, script, read) = check(stage, &[0x55; 4096], &mut memory, &tables);
    assert_eq!(read, 4096);
    assert_eq!(stage, RamTest::Finished);
    assert_eq!(
        text(&script),
        format!("PASS: second RAM pattern\nTest page freed\n{}", CLOSING)
    );
    assert!(memory.bitmap == before);

    let step = task_c(stage, 0, &mut memory, &tables);
    assert_eq!(step.next, RamTest::Finished);
    assert_eq!(
        operations(&step.script),
        vec![Operation::SupervisorCall { number: 2 }]
    );
}

#[test]
fn check_stops_at_the_first_wrong_byte() {
    let mut memory = memory(32);
    let tables = tables();
    let page = memory.alloc_page().unwrap();
    let mut bytes = [0xAA; 4096];
    bytes[4095] = 0;
    bytes[1234] = 0xAB;
    let start = RamTest::FirstPattern { page, index: 0 };
    let (stage, script, read) = check(start, &bytes, &mut memory, &tables);
    assert_eq!(read, 1235);
    assert_eq!(stage, RamTest::SecondPattern { page, index: 0 });
    assert_eq!(
        text(&script),
        "FAIL: byte 1234 = 0xab\nWrote 0x55 to entire page\n"
    );
    let (stage, script, read) = check(stage, &[0; 4096], &mut memory, &tables);
    assert_eq!(read, 1);
    assert_eq!(stage, RamTest::Finished);
    assert_eq!(
        text(&script),
        format!("FAIL: byte 0 = 0x0\nTest page freed\n{}", CLOSING)
    );
    assert!(!memory.is_page_used(0));
}

#[test]
fn wrong_last_byte_is_named() {
    let mut memory = memory(32);
    let page = memory.alloc_page().unwrap();
    let mut bytes = [0xAA; 4096];
    bytes[4095] = 0x2A;
    let start = RamTest::FirstPattern { page, index: 0 };
    let (_, script, read) = check(start, &bytes, &mut memory, &tables());
    assert_eq!(read, 4096);
    assert!(text(&script).starts_with("FAIL: byte 4095 = 0x2a\n"));
}

#[test]
fn layout_is_shown_for_any_memory() {
    let mut memory = PageAllocator::new();
    let step = task_c(RamTest::Start, 0, &mut memory, &tables());
    assert_eq!(step.next, RamTest::Allocator);
    assert!(text(&step.script).ends_with("BITMAP_SIZE: 0\n\nTesting page bitmap...\n"));
}

#[test]
fn full_memory_fails_each_test() {
    let mut memory = memory(10);
    for page in 0..10 {
        if page != 0 && page != 7 && page != 8 {
            memory.mark_page_used(page);
        }
    }
    let step = task_c(RamTest::Allocator, 0, &mut memory, &tables());
    let shown = text(&step.script);
    assert!(shown.starts_with(
        "FAIL: page 6 incorrectly marked used\n\
         FAIL: page 9 incorrectly marked used\nFAIL: page bitmap\n"
    ));
    assert!(shown.contains("Page C: 0x5fffe000\n"));

    let mut memory = PageAllocator::new();
    memory.init_memory(MAX_RAM_END - PAGE_SIZE);
    memory.mark_page_used(0);
    let mut out = String::new();
    test_single_page(&mut out, &mut memory);
    test_multiple_pages(&mut out, &mut memory);
    test_page_reuse(&mut out, &mut memory);
    assert_eq!(
        out,
        "\nTesting single page allocation...\nFAIL: could not allocate page\n\n\
         Testing multiple page allocation...\nFAIL: could not allocate three pages\n\n\
         Testing page reuse...\nFAIL: initial allocation failed\n"
    );
    assert!(memory.is_page_used(0));
}

#[test]
fn bitmap_test_frees_the_pages_it_marks() {
    let mut memory = memory(16);
    memory.mark_page_used(0);
    memory.mark_page_used(7);
    memory.mark_page_used(15);
    let mut out = String::new();
    test_bitmap(&mut out, &mut memory);
    assert_eq!(
        out,
        "FAIL: page 0 starts used\nFAIL: page bitmap\n"
    );
    assert!(!memory.is_page_used(0));
    assert!(!memory.is_page_used(7));
    assert!(!memory.is_page_used(8));
    assert!(memory.is_page_used(15));
}

#[test]
fn page_behind_the_first_is_reported() {
    let mut memory = memory(16);
    memory.mark_page_used(0);
    let mut out = String::new();
    test_single_page(&mut out, &mut memory);
    assert_eq!(
        out,
        "\nTesting single page allocation...\nAllocated page: 0x5fff1000\n\
         FAIL: expected 0x5fff0000, got 0x5fff1000\nPASS: allocated page marked used\n\
         PASS: freed page marked free\n"
    );
}

#[test]
fn too_few_pages_are_given_back() {
    let mut memory = memory(16);
    for page in 2..16 {
        memory.mark_page_used(page);
    }
    let mut out = String::new();
    test_multiple_pages(&mut out, &mut memory);
    assert_eq!(
        out,
        "\nTesting multiple page allocation...\nFAIL: could not allocate three pages\n"
    );
    assert!(!memory.is_page_used(0));
    assert!(!memory.is_page_used(1));
}
