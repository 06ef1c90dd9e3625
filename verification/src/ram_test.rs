//! The task that tests the page allocator and the memory it gives out.
//!
//! The test goes in stages. Each stage gives a script; where the script reads a
//! byte of memory, the next stage judges the byte and decides whether to read
//! on.
use crate::effect::{EffectView, Operation, Script};
use crate::memory::{MemoryView, PageAllocator, PAGE_SIZE, RAM_START};
use crate::memory_laws;
use crate::paging::PageTables;
use crate::programs;
use crate::text;
use vstd::prelude::*;
use vstd::string::*;

verus! {

/// The first pattern that fills the test page.
pub const FIRST_PATTERN: u8 = 0xAA;

/// The second pattern that fills the test page.
pub const SECOND_PATTERN: u8 = 0x55;

/// The pages that the bitmap test looks at: 0 to 9.
pub const TESTED_PAGES: usize = 10;

/// `out` followed by a heading and where the pages lie.
pub open spec fn with_layout(out: Seq<char>, m: MemoryView) -> Seq<char> {
    let t = text::with_line(out, "================================"@);
    let t = text::with_line(t, "        RAM / PAGE TEST         "@);
    let t = text::with_line(t, "================================"@);
    let t = text::with_decimal_line(t, "PAGE_SIZE: "@, PAGE_SIZE as nat);
    let t = text::with_hex_line(t, "RAM_START: "@, RAM_START as nat, 0);
    let t = text::with_hex_line(t, "RAM_END: "@, m.ram_end as nat, 0);
    let t = text::with_hex_line(t, "KERNEL_END: "@, m.kernel_end as nat, 0);
    let t = text::with_hex_line(t, "FIRST_FREE_PAGE: "@, m.first_free_page as nat, 0);
    let t = text::with_decimal_line(t, "PAGE_COUNT: "@, m.page_count as nat);
    text::with_decimal_line(t, "BITMAP_SIZE: "@, m.bitmap_size as nat)
}

/// Appends a heading and where the pages lie.
fn put_layout(out: &mut String, memory: &PageAllocator)
    ensures
        final(out)@ == with_layout(old(out)@, memory@),
{
    text::put_line(out, "================================");
    text::put_line(out, "        RAM / PAGE TEST         ");
    text::put_line(out, "================================");
    text::put_decimal_line(out, "PAGE_SIZE: ", PAGE_SIZE as u64);
    text::put_hex_line(out, "RAM_START: ", RAM_START as u64, 0);
    text::put_hex_line(out, "RAM_END: ", memory.ram_end as u64, 0);
    text::put_hex_line(out, "KERNEL_END: ", memory.kernel_end as u64, 0);
    text::put_hex_line(out, "FIRST_FREE_PAGE: ", memory.first_free_page as u64, 0);
    text::put_decimal_line(out, "PAGE_COUNT: ", memory.page_count as u64);
    text::put_decimal_line(out, "BITMAP_SIZE: ", memory.bitmap_size as u64);
}

/// `out` followed by a line where `shown` holds.
pub open spec fn with_line_if(out: Seq<char>, shown: bool, line: Seq<char>) -> Seq<char> {
    if shown {
        text::with_line(out, line)
    } else {
        out
    }
}

/// `out` followed by what the bitmap test says. Marking never fails, so the
/// test can find fault only with pages in use before it.
pub open spec fn with_bitmap_test(out: Seq<char>, m: MemoryView) -> Seq<char> {
    let t = with_line_if(out, m.used[0], "FAIL: page 0 starts used"@);
    let t = with_line_if(t, m.used[6], "FAIL: page 6 incorrectly marked used"@);
    let t = with_line_if(t, m.used[9], "FAIL: page 9 incorrectly marked used"@);
    if m.used[0] || m.used[6] || m.used[9] {
        text::with_line(t, "FAIL: page bitmap"@)
    } else {
        text::with_line(t, "PASS: page bitmap"@)
    }
}

/// What the bitmap test leaves: the pages that it marked are free.
pub open spec fn after_bitmap_test(m: MemoryView) -> MemoryView {
    m.with_page(0, false).with_page(7, false).with_page(8, false)
}

/// Marks pages at both ends of a bitmap byte, and looks at their neighbours.
pub fn test_bitmap(out: &mut String, memory: &mut PageAllocator)
    requires
        old(memory)@.wf(),
        TESTED_PAGES <= old(memory).page_count,
    ensures
        final(memory)@.wf(),
        final(memory)@ == after_bitmap_test(old(memory)@),
        final(out)@ == with_bitmap_test(old(out)@, old(memory)@),
{
    let mut passed: bool = true;
    if memory.is_page_used(0) {
        text::put_line(out, "FAIL: page 0 starts used");
        passed = false;
    }
    memory.mark_page_used(0);
    if !memory.is_page_used(0) {
        text::put_line(out, "FAIL: page 0 was not marked used");
        passed = false;
    }
    memory.mark_page_free(0);
    if memory.is_page_used(0) {
        text::put_line(out, "FAIL: page 0 was not marked free");
        passed = false;
    }
    memory.mark_page_used(7);
    memory.mark_page_used(8);
    if memory.is_page_used(6) {
        text::put_line(out, "FAIL: page 6 incorrectly marked used");
        passed = false;
    }
    if !memory.is_page_used(7) {
        text::put_line(out, "FAIL: page 7 was not marked used");
        passed = false;
    }
    if !memory.is_page_used(8) {
        text::put_line(out, "FAIL: page 8 was not marked used");
        passed = false;
    }
    if memory.is_page_used(9) {
        text::put_line(out, "FAIL: page 9 incorrectly marked used");
        passed = false;
    }
    memory.mark_page_free(7);
    memory.mark_page_free(8);
    assert(memory@ =~= after_bitmap_test(old(memory)@));
    if passed {
        text::put_line(out, "PASS: page bitmap");
    } else {
        text::put_line(out, "FAIL: page bitmap");
    }
}

/// `out` followed by the line that tells two addresses apart.
pub open spec fn with_mismatch(out: Seq<char>, expected: nat, got: nat) -> Seq<char> {
    text::with_hex_line(
        out + "FAIL: expected "@ + text::hexadecimal(expected, 0),
        ", got "@,
        got,
        0,
    )
}

/// Appends the line that tells two addresses apart.
fn put_mismatch(out: &mut String, expected: usize, got: usize)
    ensures
        final(out)@ == with_mismatch(old(out)@, expected as nat, got as nat),
{
    out.append("FAIL: expected ");
    text::put_hex(out, expected as u64, 0);
    text::put_hex_line(out, ", got ", got as u64, 0);
}

/// `out` followed by what the test of one allocation says. A page is in use
/// once it is allocated and free once it is freed, so the test can find fault
/// only with the address, or with the lack of a page.
pub open spec fn with_single_test(out: Seq<char>, m: MemoryView) -> Seq<char> {
    let t = text::with_line(text::with_line(out, ""@), "Testing single page allocation..."@);
    match m.next_address() {
        Some(address) => {
            let t = text::with_hex_line(t, "Allocated page: "@, address as nat, 0);
            let t = if address == m.first_free_page {
                text::with_line(t, "PASS: first page address"@)
            } else {
                with_mismatch(t, m.first_free_page as nat, address as nat)
            };
            let t = text::with_line(t, "PASS: allocated page marked used"@);
            text::with_line(t, "PASS: freed page marked free"@)
        },
        None => text::with_line(t, "FAIL: could not allocate page"@),
    }
}

/// Allocates a page and frees it.
pub fn test_single_page(out: &mut String, memory: &mut PageAllocator)
    requires
        old(memory)@.wf(),
    ensures
        final(memory)@.wf(),
        final(memory)@ == old(memory)@,
        final(out)@ == with_single_test(old(out)@, old(memory)@),
{
    text::put_line(out, "");
    text::put_line(out, "Testing single page allocation...");
    proof {
        memory_laws::law_alloc_takes_the_lowest_unused_page(memory@);
        if memory@.next_address() is Some {
            memory_laws::law_allocated_page_is_usable(memory@);
            memory_laws::law_free_undoes_alloc(memory@);
        }
    }
    match memory.alloc_page() {
        Some(address) => {
            text::put_hex_line(out, "Allocated page: ", address as u64, 0);
            let expected: usize = memory.first_free_page;
            if address == expected {
                text::put_line(out, "PASS: first page address");
            } else {
                put_mismatch(out, expected, address);
            }
            let page: usize = (address - memory.first_free_page) / PAGE_SIZE;
            if memory.is_page_used(page) {
                text::put_line(out, "PASS: allocated page marked used");
            } else {
                text::put_line(out, "FAIL: allocated page still free");
            }
            memory.free_page(address);
            if !memory.is_page_used(page) {
                text::put_line(out, "PASS: freed page marked free");
            } else {
                text::put_line(out, "FAIL: freed page still used");
            }
        },
        None => {
            text::put_line(out, "FAIL: could not allocate page");
        },
    }
}

/// `out` followed by what the test of three allocations says. Allocations are
/// unique, so the test can find fault only with the lack of a page.
pub open spec fn with_multiple_test(out: Seq<char>, m: MemoryView) -> Seq<char> {
    let t = text::with_line(text::with_line(out, ""@), "Testing multiple page allocation..."@);
    let a = m.next_address();
    let b = m.after_alloc().next_address();
    let c = m.after_alloc().after_alloc().next_address();
    if a is Some && b is Some && c is Some {
        let t = text::with_hex_line(t, "Page A: "@, a->0 as nat, 0);
        let t = text::with_hex_line(t, "Page B: "@, b->0 as nat, 0);
        let t = text::with_hex_line(t, "Page C: "@, c->0 as nat, 0);
        let t = text::with_line(t, "PASS: allocations are unique"@);
        text::with_line(t, "Freed A, B, C"@)
    } else {
        text::with_line(t, "FAIL: could not allocate three pages"@)
    }
}

/// What three allocations give and how freeing each of them undoes it.
proof fn lemma_three_allocations(m: MemoryView)
    requires
        m.wf(),
    ensures
        ({
            let one = m.after_alloc();
            let two = one.after_alloc();
            let three = two.after_alloc();
            let a = m.next_address();
            let b = one.next_address();
            let c = two.next_address();
            &&& a is None ==> one == m && b is None
            &&& b is None ==> two == one && c is None
            &&& c is None ==> three == two
            &&& a is Some ==> one.is_allocated(a->0) && one.after_free(a->0) == m
            &&& b is Some ==> two.is_allocated(a->0) && two.after_free(a->0).is_allocated(b->0)
                && two.after_free(a->0).after_free(b->0) == m && a->0 != b->0
            &&& c is Some ==> {
                &&& three.is_allocated(a->0)
                &&& three.after_free(a->0).is_allocated(b->0)
                &&& three.after_free(a->0).after_free(b->0).is_allocated(c->0)
                &&& three.after_free(a->0).after_free(b->0).after_free(c->0) == m
                &&& a->0 != c->0
                &&& b->0 != c->0
            }
        }),
{
    let one = m.after_alloc();
    let two = one.after_alloc();
    let three = two.after_alloc();
    memory_laws::law_alloc_takes_the_lowest_unused_page(m);
    memory_laws::law_alloc_takes_the_lowest_unused_page(one);
    memory_laws::law_alloc_takes_the_lowest_unused_page(two);
    let a = m.next_address();
    let b = one.next_address();
    let c = two.next_address();
    if a is Some {
        memory_laws::law_allocated_page_is_usable(m);
        memory_laws::law_free_undoes_alloc(m);
    }
    if b is Some {
        memory_laws::law_allocated_page_is_usable(one);
        memory_laws::law_page_in_use_is_not_given_out(one, a->0);
        memory_laws::law_freed_page_is_available(two, a->0, b->0);
        assert(two.after_free(a->0).after_free(b->0) =~= m);
    }
    if c is Some {
        memory_laws::law_allocated_page_is_usable(two);
        memory_laws::law_page_in_use_is_not_given_out(two, a->0);
        memory_laws::law_page_in_use_is_not_given_out(two, b->0);
        memory_laws::law_freed_page_is_available(three, a->0, b->0);
        memory_laws::law_freed_page_is_available(three, a->0, c->0);
        memory_laws::law_freed_page_is_available(three.after_free(a->0), b->0, c->0);
        assert(three.after_free(a->0).after_free(b->0).after_free(c->0) =~= m);
    }
}

/// Allocates three pages and frees them.
pub fn test_multiple_pages(out: &mut String, memory: &mut PageAllocator)
    requires
        old(memory)@.wf(),
    ensures
        final(memory)@.wf(),
        final(memory)@ == old(memory)@,
        final(out)@ == with_multiple_test(old(out)@, old(memory)@),
{
    text::put_line(out, "");
    text::put_line(out, "Testing multiple page allocation...");
    proof {
        lemma_three_allocations(memory@);
    }
    let a: Option<usize> = memory.alloc_page();
    let b: Option<usize> = memory.alloc_page();
    let c: Option<usize> = memory.alloc_page();
    match (a, b, c) {
        (Some(a), Some(b), Some(c)) => {
            text::put_hex_line(out, "Page A: ", a as u64, 0);
            text::put_hex_line(out, "Page B: ", b as u64, 0);
            text::put_hex_line(out, "Page C: ", c as u64, 0);
            let mut passed: bool = true;
            if a == b {
                text::put_line(out, "FAIL: A == B");
                passed = false;
            }
            if a == c {
                text::put_line(out, "FAIL: A == C");
                passed = false;
            }
            if b == c {
                text::put_line(out, "FAIL: B == C");
                passed = false;
            }
            if passed {
                text::put_line(out, "PASS: allocations are unique");
            }
            memory.free_page(a);
            memory.free_page(b);
            memory.free_page(c);
            text::put_line(out, "Freed A, B, C");
        },
        _ => {
            text::put_line(out, "FAIL: could not allocate three pages");
            if let Some(address) = a {
                memory.free_page(address);
            }
            if let Some(address) = b {
                memory.free_page(address);
            }
            if let Some(address) = c {
                memory.free_page(address);
            }
        },
    }
}

/// `out` followed by what the test of a second allocation says. A freed page is
/// reused, so the test can find fault only with the lack of a page.
pub open spec fn with_reuse_test(out: Seq<char>, m: MemoryView) -> Seq<char> {
    let t = text::with_line(text::with_line(out, ""@), "Testing page reuse..."@);
    match m.next_address() {
        Some(address) => {
            let t = text::with_hex_line(t, "First allocation: "@, address as nat, 0);
            let t = text::with_line(t, "Freed page"@);
            let t = text::with_hex_line(t, "Second allocation: "@, address as nat, 0);
            text::with_line(t, "PASS: freed page was reused"@)
        },
        None => text::with_line(t, "FAIL: initial allocation failed"@),
    }
}

/// Allocates a page, frees it, and allocates and frees again.
pub fn test_page_reuse(out: &mut String, memory: &mut PageAllocator)
    requires
        old(memory)@.wf(),
    ensures
        final(memory)@.wf(),
        final(memory)@ == old(memory)@,
        final(out)@ == with_reuse_test(old(out)@, old(memory)@),
{
    text::put_line(out, "");
    text::put_line(out, "Testing page reuse...");
    proof {
        if memory@.next_address() is Some {
            memory_laws::law_allocated_page_is_usable(memory@);
            memory_laws::law_free_undoes_alloc(memory@);
        } else {
            memory_laws::law_alloc_takes_the_lowest_unused_page(memory@);
        }
    }
    match memory.alloc_page() {
        Some(a) => {
            text::put_hex_line(out, "First allocation: ", a as u64, 0);
            memory.free_page(a);
            text::put_line(out, "Freed page");
            match memory.alloc_page() {
                Some(b) => {
                    text::put_hex_line(out, "Second allocation: ", b as u64, 0);
                    if a == b {
                        text::put_line(out, "PASS: freed page was reused");
                    } else {
                        put_mismatch(out, a, b);
                    }
                    memory.free_page(b);
                },
                None => {
                    text::put_line(out, "FAIL: could not reallocate page");
                },
            }
        },
        None => {
            text::put_line(out, "FAIL: initial allocation failed");
        },
    }
}

/// The check of a page against `pattern` ends with `byte`, read at `index`: the
/// byte is wrong, or it is the last one.
pub open spec fn settles(index: int, byte: u8, pattern: u8) -> bool {
    byte != pattern || index + 1 >= PAGE_SIZE
}

/// `out` followed by the judgement of a page, where the check of it ended with
/// `byte` at `index`.
pub open spec fn with_verdict(
    out: Seq<char>,
    index: nat,
    byte: u8,
    pattern: u8,
    praise: Seq<char>,
) -> Seq<char> {
    if byte != pattern {
        text::with_hex_line(
            out + "FAIL: byte "@ + text::decimal(index),
            " = "@,
            byte as nat,
            0,
        )
    } else {
        text::with_line(out, praise)
    }
}

/// Appends the judgement of a page, where the check of it ended with `byte` at
/// `index`.
fn put_verdict(out: &mut String, index: usize, byte: u8, pattern: u8, praise: &str)
    ensures
        final(out)@ == with_verdict(old(out)@, index as nat, byte, pattern, praise@),
{
    if byte != pattern {
        out.append("FAIL: byte ");
        text::put_digits(out, index as u64, 10);
        text::put_hex_line(out, " = ", byte as u64, 0);
    } else {
        text::put_line(out, praise);
    }
}

/// `out` followed by four table entries and the end of the test. The lines show,
/// in this order, the entry of level 1 that leads to the RAM, labelled `L0[0]`,
/// the entry of level 1 that leads to the devices, labelled `L1[0]`, and the
/// first two entries of level 2 for the RAM.
pub open spec fn with_closing(out: Seq<char>, tables: PageTables) -> Seq<char> {
    let t = text::with_hex_line(out, "L0[0] = "@, tables.l1@[1].0 as nat, 18);
    let t = text::with_hex_line(t, "L1[0] = "@, tables.l1@[0].0 as nat, 18);
    let t = text::with_hex_line(t, "L2[0] = "@, tables.l2_ram@[0].0 as nat, 18);
    let t = text::with_hex_line(t, "L2[1] = "@, tables.l2_ram@[1].0 as nat, 18);
    let t = text::with_line(t, ""@);
    let t = text::with_line(t, "================================"@);
    let t = text::with_line(t, "          RAM TESTED            "@);
    text::with_line(t, "================================"@)
}

/// Appends four table entries and the end of the test.
fn put_closing(out: &mut String, tables: &PageTables)
    ensures
        final(out)@ == with_closing(old(out)@, *tables),
{
    text::put_hex_line(out, "L0[0] = ", tables.l1.entries[1].0, 18);
    text::put_hex_line(out, "L1[0] = ", tables.l1.entries[0].0, 18);
    text::put_hex_line(out, "L2[0] = ", tables.l2_ram.entries[0].0, 18);
    text::put_hex_line(out, "L2[1] = ", tables.l2_ram.entries[1].0, 18);
    text::put_line(out, "");
    text::put_line(out, "================================");
    text::put_line(out, "          RAM TESTED            ");
    text::put_line(out, "================================");
}

/// Where the test stands.
#[derive(Clone, Copy, PartialEq, Eq, Structural, Debug)]
pub enum RamTest {
    /// Nothing is done yet.
    Start,
    /// The layout is shown.
    Allocator,
    /// The page at `page` was filled with the first pattern, and its byte
    /// `index` was read.
    FirstPattern { page: usize, index: usize },
    /// The page at `page` was filled with the second pattern, and its byte
    /// `index` was read.
    SecondPattern { page: usize, index: usize },
    /// The test is over.
    Finished,
}

/// Where the test stands after a stage, and what the stage asks for.
pub struct RamTestStep {
    pub next: RamTest,
    pub script: Script,
}

/// What is shown before the first test: the layout, and the heading of the
/// bitmap test.
pub open spec fn opening(m: MemoryView) -> Seq<char> {
    let t = with_layout(Seq::empty(), m);
    text::with_line(text::with_line(t, ""@), "Testing page bitmap..."@)
}

/// What the allocator tests say, up to the test of the memory itself.
pub open spec fn allocator_tests(m: MemoryView) -> Seq<char> {
    let rest = after_bitmap_test(m);
    let t = with_bitmap_test(Seq::empty(), m);
    let t = with_single_test(t, rest);
    let t = with_multiple_test(t, rest);
    let t = with_reuse_test(t, rest);
    text::with_line(text::with_line(t, ""@), "Testing actual RAM access..."@)
}

/// Fills the page at `page` with `pattern` and reads its first byte.
pub open spec fn exercising(page: usize, pattern: u8, note: Seq<char>) -> Seq<EffectView> {
    seq![
        EffectView::Perform(Operation::Fill { address: page, length: PAGE_SIZE, value: pattern }),
        EffectView::Print(note + "\n"@),
        EffectView::Perform(Operation::ReadByte { address: page }),
    ]
}

/// Adds the filling of the page at `page` and the reading of its first byte.
fn exercise(script: &mut Script, page: usize, pattern: u8, note: &str)
    ensures
        final(script)@ == old(script)@ + exercising(page, pattern, note@),
{
    script.perform(Operation::Fill { address: page, length: PAGE_SIZE, value: pattern });
    script.print_line(note);
    script.perform(Operation::ReadByte { address: page });
    assert(script@ =~= old(script)@ + exercising(page, pattern, note@));
}

/// Reads the byte behind `index` of the page at `page`.
pub open spec fn reading_on(page: usize, index: usize) -> Seq<EffectView> {
    seq![EffectView::Perform(Operation::ReadByte { address: (page + index + 1) as usize })]
}

/// What a stage asks for, where the allocator stands at `m` and `byte` is what
/// was read.
pub open spec fn stage_script(
    stage: RamTest,
    byte: u8,
    m: MemoryView,
    tables: PageTables,
) -> Seq<EffectView> {
    match stage {
        RamTest::Start => seq![EffectView::Print(opening(m))],
        RamTest::Allocator => match after_bitmap_test(m).next_address() {
            Some(page) => seq![
                EffectView::Print(
                    text::with_hex_line(
                        allocator_tests(m),
                        "Allocated test page: "@,
                        page as nat,
                        0,
                    ),
                ),
            ] + exercising(page as usize, FIRST_PATTERN, "Wrote 0xAA to entire page"@),
            None => seq![
                EffectView::Print(
                    with_closing(
                        text::with_line(
                            allocator_tests(m),
                            "FAIL: could not allocate RAM test page"@,
                        ),
                        tables,
                    ),
                ),
            ],
        },
        RamTest::FirstPattern { page, index } => if settles(index as int, byte, FIRST_PATTERN) {
            seq![
                EffectView::Print(
                    with_verdict(
                        Seq::empty(),
                        index as nat,
                        byte,
                        FIRST_PATTERN,
                        "PASS: entire page read back correctly"@,
                    ),
                ),
            ] + exercising(page, SECOND_PATTERN, "Wrote 0x55 to entire page"@)
        } else {
            reading_on(page, index)
        },
        RamTest::SecondPattern { page, index } => if settles(index as int, byte, SECOND_PATTERN) {
            seq![
                EffectView::Print(
                    with_closing(
                        text::with_line(
                            with_verdict(
                                Seq::empty(),
                                index as nat,
                                byte,
                                SECOND_PATTERN,
                                "PASS: second RAM pattern"@,
                            ),
                            "Test page freed"@,
                        ),
                        tables,
                    ),
                ),
            ]
        } else {
            reading_on(page, index)
        },
        RamTest::Finished => seq![
            EffectView::Perform(
                Operation::SupervisorCall { number: crate::trap::SVC_YIELD },
            ),
        ],
    }
}

/// The stage behind `stage`, where `byte` is what was read.
pub open spec fn next_stage(stage: RamTest, byte: u8, m: MemoryView) -> RamTest {
    match stage {
        RamTest::Start => RamTest::Allocator,
        RamTest::Allocator => match after_bitmap_test(m).next_address() {
            Some(page) => RamTest::FirstPattern { page: page as usize, index: 0 },
            None => RamTest::Finished,
        },
        RamTest::FirstPattern { page, index } => if settles(index as int, byte, FIRST_PATTERN) {
            RamTest::SecondPattern { page, index: 0 }
        } else {
            RamTest::FirstPattern { page, index: (index + 1) as usize }
        },
        RamTest::SecondPattern { page, index } => if settles(index as int, byte, SECOND_PATTERN) {
            RamTest::Finished
        } else {
            RamTest::SecondPattern { page, index: (index + 1) as usize }
        },
        RamTest::Finished => RamTest::Finished,
    }
}

/// The allocator after `stage`, where `byte` is what was read.
pub open spec fn stage_memory(stage: RamTest, byte: u8, m: MemoryView) -> MemoryView {
    match stage {
        RamTest::Allocator => after_bitmap_test(m).after_alloc(),
        RamTest::SecondPattern { page, index } => if settles(index as int, byte, SECOND_PATTERN) {
            m.after_free(page as int)
        } else {
            m
        },
        _ => m,
    }
}

/// One stage of the task that tests the RAM: the layout, the allocator tests
/// and the allocation of a test page, the judgement of each byte that was read
/// until one is wrong or the page is through, and the yielding that follows for
/// ever.
///
/// `byte` is what the stage before asked to read.
pub fn task_c(
    stage: RamTest,
    byte: u8,
    memory: &mut PageAllocator,
    tables: &PageTables,
) -> (step: RamTestStep)
    requires
        old(memory)@.wf(),
        match stage {
            RamTest::Allocator => TESTED_PAGES <= old(memory).page_count,
            RamTest::FirstPattern { page, index } => index < PAGE_SIZE && old(
                memory,
            )@.is_allocated(page as int),
            RamTest::SecondPattern { page, index } => index < PAGE_SIZE && old(
                memory,
            )@.is_allocated(page as int),
            _ => true,
        },
    ensures
        final(memory)@.wf(),
        final(memory)@ == stage_memory(stage, byte, old(memory)@),
        step.next == next_stage(stage, byte, old(memory)@),
        step.script@ == stage_script(stage, byte, old(memory)@, *tables),
{
    let mut out: String = String::new();
    let mut script: Script = Script::new();
    match stage {
        RamTest::Start => {
            put_layout(&mut out, memory);
            text::put_line(&mut out, "");
            text::put_line(&mut out, "Testing page bitmap...");
            script.print(out);
            assert(script@ =~= stage_script(stage, byte, old(memory)@, *tables));
            RamTestStep { next: RamTest::Allocator, script }
        },
        RamTest::Allocator => {
            test_bitmap(&mut out, memory);
            test_single_page(&mut out, memory);
            test_multiple_pages(&mut out, memory);
            test_page_reuse(&mut out, memory);
            text::put_line(&mut out, "");
            text::put_line(&mut out, "Testing actual RAM access...");
            match memory.alloc_page() {
                Some(page) => {
                    text::put_hex_line(&mut out, "Allocated test page: ", page as u64, 0);
                    script.print(out);
                    exercise(&mut script, page, FIRST_PATTERN, "Wrote 0xAA to entire page");
                    assert(script@ =~= stage_script(stage, byte, old(memory)@, *tables));
                    RamTestStep { next: RamTest::FirstPattern { page, index: 0 }, script }
                },
                None => {
                    text::put_line(&mut out, "FAIL: could not allocate RAM test page");
                    put_closing(&mut out, tables);
                    script.print(out);
                    assert(script@ =~= stage_script(stage, byte, old(memory)@, *tables));
                    RamTestStep { next: RamTest::Finished, script }
                },
            }
        },
        RamTest::FirstPattern { page, index } => {
            if byte == FIRST_PATTERN && index + 1 < PAGE_SIZE {
                script.perform(Operation::ReadByte { address: page + index + 1 });
                assert(script@ =~= stage_script(stage, byte, old(memory)@, *tables));
                return RamTestStep {
                    next: RamTest::FirstPattern { page, index: index + 1 },
                    script,
                };
            }
            put_verdict(
                &mut out,
                index,
                byte,
                FIRST_PATTERN,
                "PASS: entire page read back correctly",
            );
            script.print(out);
            exercise(&mut script, page, SECOND_PATTERN, "Wrote 0x55 to entire page");
            assert(script@ =~= stage_script(stage, byte, old(memory)@, *tables));
            RamTestStep { next: RamTest::SecondPattern { page, index: 0 }, script }
        },
        RamTest::SecondPattern { page, index } => {
            if byte == SECOND_PATTERN && index + 1 < PAGE_SIZE {
                script.perform(Operation::ReadByte { address: page + index + 1 });
                assert(script@ =~= stage_script(stage, byte, old(memory)@, *tables));
                return RamTestStep {
                    next: RamTest::SecondPattern { page, index: index + 1 },
                    script,
                };
            }
            put_verdict(&mut out, index, byte, SECOND_PATTERN, "PASS: second RAM pattern");
            memory.free_page(page);
            text::put_line(&mut out, "Test page freed");
            put_closing(&mut out, tables);
            script.print(out);
            assert(script@ =~= stage_script(stage, byte, old(memory)@, *tables));
            RamTestStep { next: RamTest::Finished, script }
        },
        RamTest::Finished => {
            script.perform(programs::yield_now());
            assert(script@ =~= stage_script(stage, byte, old(memory)@, *tables));
            RamTestStep { next: RamTest::Finished, script }
        },
    }
}

} // verus!
