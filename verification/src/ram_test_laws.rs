//! What the RAM test finds and what it leaves.
use crate::effect::{EffectView, Operation};
use crate::memory::{MemoryView, PAGE_SIZE};
use crate::memory_laws;
use crate::paging::PageTables;
use crate::ram_test;
use crate::ram_test::{RamTest, FIRST_PATTERN, SECOND_PATTERN, TESTED_PAGES};
use crate::text;
use vstd::prelude::*;

verus! {

/// What the allocator tests say where every page is unused: the first three
/// pages are given out in order, and each test passes.
pub open spec fn passing_tests(m: MemoryView) -> Seq<char> {
    let first = m.first_free_page as nat;
    let t = text::with_line(Seq::empty(), "PASS: page bitmap"@);
    let t = text::with_line(text::with_line(t, ""@), "Testing single page allocation..."@);
    let t = text::with_hex_line(t, "Allocated page: "@, first, 0);
    let t = text::with_line(t, "PASS: first page address"@);
    let t = text::with_line(t, "PASS: allocated page marked used"@);
    let t = text::with_line(t, "PASS: freed page marked free"@);
    let t = text::with_line(text::with_line(t, ""@), "Testing multiple page allocation..."@);
    let t = text::with_hex_line(t, "Page A: "@, first, 0);
    let t = text::with_hex_line(t, "Page B: "@, first + 4096, 0);
    let t = text::with_hex_line(t, "Page C: "@, first + 8192, 0);
    let t = text::with_line(t, "PASS: allocations are unique"@);
    let t = text::with_line(t, "Freed A, B, C"@);
    let t = text::with_line(text::with_line(t, ""@), "Testing page reuse..."@);
    let t = text::with_hex_line(t, "First allocation: "@, first, 0);
    let t = text::with_line(t, "Freed page"@);
    let t = text::with_hex_line(t, "Second allocation: "@, first, 0);
    let t = text::with_line(t, "PASS: freed page was reused"@);
    text::with_line(text::with_line(t, ""@), "Testing actual RAM access..."@)
}

/// On an allocator whose pages are all unused every allocator test passes, and
/// the first page is the one whose memory is tested.
pub proof fn law_allocator_tests_pass_on_fresh_memory(m: MemoryView)
    requires
        m.wf(),
        m.all_unused(),
        TESTED_PAGES <= m.page_count,
    ensures
        ram_test::allocator_tests(m) == passing_tests(m),
        forall|byte: u8|
            #[trigger] ram_test::next_stage(RamTest::Allocator, byte, m) == (
            RamTest::FirstPattern { page: m.first_free_page as usize, index: 0 }),
{
    assert(ram_test::after_bitmap_test(m) =~= m);
    memory_laws::law_fresh_allocator_gives_every_page(m, 0);
    memory_laws::law_fresh_allocator_gives_every_page(m, 1);
    memory_laws::law_fresh_allocator_gives_every_page(m, 2);
    reveal_with_fuel(MemoryView::after_allocs, 3);
    assert(m.after_allocs(1) == m.after_alloc());
    assert(m.after_allocs(2) == m.after_alloc().after_alloc());
}

/// Where the check of a page that holds `bytes` ends, if it has come to `index`.
pub open spec fn check_ends(bytes: Seq<u8>, pattern: u8, index: int) -> int
    decreases PAGE_SIZE - index,
{
    if ram_test::settles(index, bytes[index], pattern) {
        index
    } else {
        check_ends(bytes, pattern, index + 1)
    }
}

/// Where the check ends.
proof fn lemma_check_ends(bytes: Seq<u8>, pattern: u8, index: int)
    requires
        0 <= index < PAGE_SIZE,
    ensures
        index <= check_ends(bytes, pattern, index) < PAGE_SIZE,
        forall|i: int| index <= i < check_ends(bytes, pattern, index) ==> bytes[i] == pattern,
        ({
            let last = check_ends(bytes, pattern, index);
            bytes[last] != pattern || last == PAGE_SIZE - 1
        }),
    decreases PAGE_SIZE - index,
{
    if !ram_test::settles(index, bytes[index], pattern) {
        lemma_check_ends(bytes, pattern, index + 1);
    }
}

/// The check of a page reads its bytes in order and ends at the first wrong
/// one, or at the last one where none is wrong: up to there each stage asks for
/// the next byte alone, and the stage of the ending byte goes on to the next
/// part of the test.
pub proof fn law_check_stops_at_the_first_wrong_byte(
    page: usize,
    bytes: Seq<u8>,
    m: MemoryView,
    tables: PageTables,
)
    requires
        bytes.len() == PAGE_SIZE,
    ensures
        ({
            let last = check_ends(bytes, FIRST_PATTERN, 0);
            &&& 0 <= last < PAGE_SIZE
            &&& bytes[last] != FIRST_PATTERN || last == PAGE_SIZE - 1
            &&& forall|i: int| 0 <= i < last ==> #[trigger] bytes[i] == FIRST_PATTERN
            &&& forall|i: int|
                0 <= i < last ==> {
                    let stage = RamTest::FirstPattern { page, index: i as usize };
                    &&& ram_test::stage_script(stage, #[trigger] bytes[i], m, tables)
                        == ram_test::reading_on(page, i as usize)
                    &&& ram_test::next_stage(stage, bytes[i], m) == (RamTest::FirstPattern {
                        page,
                        index: (i + 1) as usize,
                    })
                }
            &&& ram_test::next_stage(
                RamTest::FirstPattern { page, index: last as usize },
                bytes[last],
                m,
            ) == (RamTest::SecondPattern { page, index: 0 })
        }),
        ({
            let last = check_ends(bytes, SECOND_PATTERN, 0);
            &&& 0 <= last < PAGE_SIZE
            &&& bytes[last] != SECOND_PATTERN || last == PAGE_SIZE - 1
            &&& forall|i: int| 0 <= i < last ==> #[trigger] bytes[i] == SECOND_PATTERN
            &&& forall|i: int|
                0 <= i < last ==> {
                    let stage = RamTest::SecondPattern { page, index: i as usize };
                    &&& ram_test::stage_script(stage, #[trigger] bytes[i], m, tables)
                        == ram_test::reading_on(page, i as usize)
                    &&& ram_test::next_stage(stage, bytes[i], m) == (RamTest::SecondPattern {
                        page,
                        index: (i + 1) as usize,
                    })
                }
            &&& ram_test::next_stage(
                RamTest::SecondPattern { page, index: last as usize },
                bytes[last],
                m,
            ) == RamTest::Finished
        }),
{
    lemma_check_ends(bytes, FIRST_PATTERN, 0);
    lemma_check_ends(bytes, SECOND_PATTERN, 0);
}

/// A page that reads back as it was written is read to its end and praised.
pub proof fn law_intact_page_passes(
    out: Seq<char>,
    bytes: Seq<u8>,
    pattern: u8,
    praise: Seq<char>,
)
    requires
        bytes.len() == PAGE_SIZE,
        forall|i: int| 0 <= i < bytes.len() ==> #[trigger] bytes[i] == pattern,
    ensures
        ({
            let last = check_ends(bytes, pattern, 0);
            &&& last == PAGE_SIZE - 1
            &&& ram_test::with_verdict(out, last as nat, bytes[last], pattern, praise)
                == text::with_line(out, praise)
        }),
{
    lemma_check_ends(bytes, pattern, 0);
}

/// The whole test leaves the allocator as the bitmap test left it: the test
/// page is in use until the second check ends, whatever the bytes read, and free
/// behind it. So on an allocator whose pages 0, 7 and 8 were unused it changes
/// nothing.
pub proof fn law_ram_test_returns_its_page(m: MemoryView, index: usize, byte: u8)
    requires
        m.wf(),
        TESTED_PAGES <= m.page_count,
        m.ram_end <= usize::MAX,
        ram_test::next_stage(RamTest::Allocator, byte, m) is FirstPattern,
        index < PAGE_SIZE,
    ensures
        ({
            let page = ram_test::next_stage(RamTest::Allocator, byte, m)->FirstPattern_page;
            let tested = ram_test::stage_memory(RamTest::Allocator, byte, m);
            let first = RamTest::FirstPattern { page, index };
            let second = RamTest::SecondPattern { page, index };
            let left = ram_test::stage_memory(second, byte, tested);
            &&& ram_test::stage_memory(RamTest::Start, byte, m) == m
            &&& tested.is_allocated(page as int)
            &&& ram_test::stage_memory(first, byte, tested) == tested
            &&& if ram_test::next_stage(second, byte, tested) == RamTest::Finished {
                &&& left == ram_test::after_bitmap_test(m)
                &&& !m.used[0] && !m.used[7] && !m.used[8] ==> left == m
            } else {
                left == tested
            }
        }),
{
    let rest = ram_test::after_bitmap_test(m);
    memory_laws::law_allocated_page_is_usable(rest);
    memory_laws::law_free_undoes_alloc(rest);
    if !m.used[0] && !m.used[7] && !m.used[8] {
        assert(rest =~= m);
    }
}

/// Where every page is unused and the memory keeps what is written to it, the
/// whole test prints praise alone, and leaves the allocator as it was.
pub proof fn law_ram_test_passes_on_sound_memory(
    m: MemoryView,
    byte: u8,
    first_read: Seq<u8>,
    second_read: Seq<u8>,
    tables: PageTables,
)
    requires
        m.wf(),
        m.all_unused(),
        TESTED_PAGES <= m.page_count,
        m.ram_end <= usize::MAX,
        first_read.len() == PAGE_SIZE,
        forall|i: int| 0 <= i < PAGE_SIZE ==> #[trigger] first_read[i] == FIRST_PATTERN,
        second_read.len() == PAGE_SIZE,
        forall|i: int| 0 <= i < PAGE_SIZE ==> #[trigger] second_read[i] == SECOND_PATTERN,
    ensures
        ({
            let page = m.first_free_page as usize;
            let tested = ram_test::stage_memory(RamTest::Allocator, byte, m);
            let i = check_ends(first_read, FIRST_PATTERN, 0);
            let j = check_ends(second_read, SECOND_PATTERN, 0);
            let first = RamTest::FirstPattern { page, index: i as usize };
            let second = RamTest::SecondPattern { page, index: j as usize };
            &&& ram_test::stage_script(RamTest::Allocator, byte, m, tables) == seq![
                EffectView::Print(
                    text::with_hex_line(
                        passing_tests(m),
                        "Allocated test page: "@,
                        page as nat,
                        0,
                    ),
                ),
            ] + ram_test::exercising(page, FIRST_PATTERN, "Wrote 0xAA to entire page"@)
            &&& ram_test::stage_script(first, first_read[i], tested, tables) == seq![
                EffectView::Print(
                    text::with_line(Seq::empty(), "PASS: entire page read back correctly"@),
                ),
            ] + ram_test::exercising(page, SECOND_PATTERN, "Wrote 0x55 to entire page"@)
            &&& ram_test::stage_script(second, second_read[j], tested, tables) == seq![
                EffectView::Print(
                    ram_test::with_closing(
                        text::with_line(
                            text::with_line(Seq::empty(), "PASS: second RAM pattern"@),
                            "Test page freed"@,
                        ),
                        tables,
                    ),
                ),
            ]
            &&& ram_test::stage_memory(second, second_read[j], tested) == m
        }),
{
    law_allocator_tests_pass_on_fresh_memory(m);
    assert(ram_test::after_bitmap_test(m) =~= m);
    memory_laws::law_fresh_allocator_gives_every_page(m, 0);
    memory_laws::law_free_undoes_alloc(m);
    law_intact_page_passes(
        Seq::empty(),
        first_read,
        FIRST_PATTERN,
        "PASS: entire page read back correctly"@,
    );
    law_intact_page_passes(
        Seq::empty(),
        second_read,
        SECOND_PATTERN,
        "PASS: second RAM pattern"@,
    );
}

/// The judgement of a page. A wrong byte, whichever it is, is named with its
/// place and value and never praised; only the pattern itself is praised.
pub proof fn law_verdict_names_every_wrong_byte(
    out: Seq<char>,
    index: nat,
    byte: u8,
    pattern: u8,
    praise: Seq<char>,
)
    ensures
        byte != pattern ==> ram_test::with_verdict(out, index, byte, pattern, praise) == out
            + "FAIL: byte "@ + text::decimal(index) + " = "@ + text::hexadecimal(byte as nat, 0)
            + "\n"@,
        byte == pattern ==> ram_test::with_verdict(out, index, byte, pattern, praise) == out
            + praise + "\n"@,
{
}

/// A check goes on exactly while the bytes are right and there are more.
pub proof fn law_check_goes_on_while_bytes_are_right(index: int, byte: u8, pattern: u8)
    requires
        0 <= index < 4096,
    ensures
        !ram_test::settles(index, byte, pattern) <==> byte == pattern && index < 4095,
{
}

/// What the test does with a byte of the page that holds the first pattern. The
/// right byte before the end asks for the one behind it. A wrong byte, and the
/// last one, end the check: the verdict is printed, and the whole page gets the
/// second pattern. The allocator is left alone.
pub proof fn law_first_pattern_stage(
    page: usize,
    index: usize,
    byte: u8,
    m: MemoryView,
    tables: PageTables,
)
    requires
        index < 4096,
        page + index + 1 <= usize::MAX,
    ensures
        ({
            let stage = RamTest::FirstPattern { page, index };
            let script = ram_test::stage_script(stage, byte, m, tables);
            let next = ram_test::next_stage(stage, byte, m);
            &&& ram_test::stage_memory(stage, byte, m) == m
            &&& byte == 0xAA && index < 4095 ==> {
                &&& script.len() == 1
                &&& script[0] == EffectView::Perform(
                    Operation::ReadByte { address: (page + index + 1) as usize },
                )
                &&& next == RamTest::FirstPattern { page, index: (index + 1) as usize }
            }
            &&& byte != 0xAA || index == 4095 ==> {
                &&& script.len() == 4
                &&& script[0] == EffectView::Print(
                    if byte != 0xAA {
                        "FAIL: byte "@ + text::decimal(index as nat) + " = "@
                            + text::hexadecimal(byte as nat, 0) + "\n"@
                    } else {
                        "PASS: entire page read back correctly"@ + "\n"@
                    },
                )
                &&& script[1] == EffectView::Perform(
                    Operation::Fill { address: page, length: 4096, value: 0x55 },
                )
                &&& script[2] == EffectView::Print("Wrote 0x55 to entire page"@ + "\n"@)
                &&& script[3] == EffectView::Perform(Operation::ReadByte { address: page })
                &&& next == RamTest::SecondPattern { page, index: 0 }
            }
        }),
{
    assert(Seq::<char>::empty() + "FAIL: byte "@ =~= "FAIL: byte "@);
    assert(Seq::<char>::empty() + "PASS: entire page read back correctly"@
        =~= "PASS: entire page read back correctly"@);
}

/// What the test does with a byte of the page that holds the second pattern. The
/// right byte before the end asks for the one behind it. A wrong byte, and the
/// last one, end the test: the verdict is printed, and the page is freed.
pub proof fn law_second_pattern_stage(
    page: usize,
    index: usize,
    byte: u8,
    m: MemoryView,
    tables: PageTables,
)
    requires
        index < 4096,
        page + index + 1 <= usize::MAX,
    ensures
        ({
            let stage = RamTest::SecondPattern { page, index };
            let script = ram_test::stage_script(stage, byte, m, tables);
            let next = ram_test::next_stage(stage, byte, m);
            let after = ram_test::stage_memory(stage, byte, m);
            &&& byte == 0x55 && index < 4095 ==> {
                &&& script.len() == 1
                &&& script[0] == EffectView::Perform(
                    Operation::ReadByte { address: (page + index + 1) as usize },
                )
                &&& next == RamTest::SecondPattern { page, index: (index + 1) as usize }
                &&& after == m
            }
            &&& byte != 0x55 || index == 4095 ==> {
                &&& script.len() == 1
                &&& script[0] == EffectView::Print(
                    ram_test::with_closing(
                        (if byte != 0x55 {
                            "FAIL: byte "@ + text::decimal(index as nat) + " = "@
                                + text::hexadecimal(byte as nat, 0) + "\n"@
                        } else {
                            "PASS: second RAM pattern"@ + "\n"@
                        }) + "Test page freed"@ + "\n"@,
                        tables,
                    ),
                )
                &&& next == RamTest::Finished
                &&& after == m.after_free(page as int)
            }
        }),
{
    assert(Seq::<char>::empty() + "FAIL: byte "@ =~= "FAIL: byte "@);
    assert(Seq::<char>::empty() + "PASS: second RAM pattern"@ =~= "PASS: second RAM pattern"@);
}

/// The test starts with the layout and leaves the allocator alone for it; when
/// it is over it gives the processor up for ever.
pub proof fn law_first_and_last_stage(byte: u8, m: MemoryView, tables: PageTables)
    ensures
        ram_test::stage_script(RamTest::Start, byte, m, tables) == seq![
            EffectView::Print(ram_test::opening(m)),
        ],
        ram_test::next_stage(RamTest::Start, byte, m) == RamTest::Allocator,
        ram_test::stage_memory(RamTest::Start, byte, m) == m,
        ram_test::stage_script(RamTest::Finished, byte, m, tables) == seq![
            EffectView::Perform(Operation::SupervisorCall { number: 2 }),
        ],
        ram_test::next_stage(RamTest::Finished, byte, m) == RamTest::Finished,
        ram_test::stage_memory(RamTest::Finished, byte, m) == m,
{
}

/// The allocator stage frees the pages that the bitmap test marked and then
/// takes the test page. The page that it takes is filled with the first pattern
/// and its first byte is read; without a page the test ends.
pub proof fn law_allocator_stage(byte: u8, m: MemoryView, tables: PageTables)
    ensures
        ({
            let script = ram_test::stage_script(RamTest::Allocator, byte, m, tables);
            let next = ram_test::next_stage(RamTest::Allocator, byte, m);
            let rest = ram_test::after_bitmap_test(m);
            &&& ram_test::stage_memory(RamTest::Allocator, byte, m) == rest.after_alloc()
            &&& match rest.next_address() {
                Some(page) => {
                    &&& script.len() == 4
                    &&& script[0] == EffectView::Print(
                        ram_test::allocator_tests(m) + "Allocated test page: "@
                            + text::hexadecimal(page as nat, 0) + "\n"@,
                    )
                    &&& script[1] == EffectView::Perform(
                        Operation::Fill { address: page as usize, length: 4096, value: 0xAA },
                    )
                    &&& script[2] == EffectView::Print("Wrote 0xAA to entire page"@ + "\n"@)
                    &&& script[3] == EffectView::Perform(
                        Operation::ReadByte { address: page as usize },
                    )
                    &&& next == RamTest::FirstPattern { page: page as usize, index: 0 }
                },
                None => {
                    &&& script.len() == 1
                    &&& script[0] == EffectView::Print(
                        ram_test::with_closing(
                            ram_test::allocator_tests(m)
                                + "FAIL: could not allocate RAM test page"@ + "\n"@,
                            tables,
                        ),
                    )
                    &&& next == RamTest::Finished
                },
            }
        }),
{
}

/// The bitmap test frees pages 0, 7 and 8, and changes nothing else.
pub proof fn law_bitmap_test_frees_three_pages(m: MemoryView, page: int)
    requires
        9 <= m.used.len(),
        0 <= page < m.used.len(),
    ensures
        memory_laws::same_layout(m, ram_test::after_bitmap_test(m)),
        ram_test::after_bitmap_test(m).used[page] == (m.used[page] && page != 0 && page != 7
            && page != 8),
{
}

/// The bitmap test complains of each of pages 0, 6 and 9 that is in use, in this
/// order, and passes exactly where none of them is.
pub proof fn law_bitmap_test_complaints(out: Seq<char>, m: MemoryView)
    ensures
        ({
            let zero = if m.used[0] {
                out + "FAIL: page 0 starts used"@ + "\n"@
            } else {
                out
            };
            let six = if m.used[6] {
                zero + "FAIL: page 6 incorrectly marked used"@ + "\n"@
            } else {
                zero
            };
            let nine = if m.used[9] {
                six + "FAIL: page 9 incorrectly marked used"@ + "\n"@
            } else {
                six
            };
            &&& !m.used[0] && !m.used[6] && !m.used[9] ==> ram_test::with_bitmap_test(out, m)
                == out + "PASS: page bitmap"@ + "\n"@
            &&& m.used[0] || m.used[6] || m.used[9] ==> ram_test::with_bitmap_test(out, m) == nine
                + "FAIL: page bitmap"@ + "\n"@
        }),
{
}

/// A mismatch names the expected address before the one that came.
pub proof fn law_mismatch_names_both_addresses(out: Seq<char>, expected: nat, got: nat)
    ensures
        ram_test::with_mismatch(out, expected, got) == out + "FAIL: expected "@
            + text::hexadecimal(expected, 0) + ", got "@ + text::hexadecimal(got, 0) + "\n"@,
{
}

/// The test of one allocation shows the page that was given out, and passes
/// exactly where it is the first page of all.
pub proof fn law_single_test_lines(out: Seq<char>, m: MemoryView)
    ensures
        ({
            let t = out + ""@ + "\n"@ + "Testing single page allocation..."@ + "\n"@;
            match m.next_address() {
                Some(address) => {
                    let shown = t + "Allocated page: "@ + text::hexadecimal(address as nat, 0)
                        + "\n"@;
                    let judged = if address == m.first_free_page {
                        shown + "PASS: first page address"@ + "\n"@
                    } else {
                        shown + "FAIL: expected "@ + text::hexadecimal(m.first_free_page as nat, 0)
                            + ", got "@ + text::hexadecimal(address as nat, 0) + "\n"@
                    };
                    ram_test::with_single_test(out, m) == judged
                        + "PASS: allocated page marked used"@ + "\n"@
                        + "PASS: freed page marked free"@ + "\n"@
                },
                None => ram_test::with_single_test(out, m) == t
                    + "FAIL: could not allocate page"@ + "\n"@,
            }
        }),
{
}

/// The test of three allocations shows the three pages in the order in which
/// they are given out, and fails exactly where there are fewer.
pub proof fn law_multiple_test_lines(out: Seq<char>, m: MemoryView)
    ensures
        ({
            let t = out + ""@ + "\n"@ + "Testing multiple page allocation..."@ + "\n"@;
            let a = m.next_address();
            let b = m.after_alloc().next_address();
            let c = m.after_alloc().after_alloc().next_address();
            ram_test::with_multiple_test(out, m) == if a is Some && b is Some && c is Some {
                t + "Page A: "@ + text::hexadecimal(a->0 as nat, 0) + "\n"@ + "Page B: "@
                    + text::hexadecimal(b->0 as nat, 0) + "\n"@ + "Page C: "@
                    + text::hexadecimal(c->0 as nat, 0) + "\n"@ + "PASS: allocations are unique"@
                    + "\n"@ + "Freed A, B, C"@ + "\n"@
            } else {
                t + "FAIL: could not allocate three pages"@ + "\n"@
            }
        }),
{
}

/// The test of a second allocation shows the same page twice, and fails exactly
/// where there is none.
pub proof fn law_reuse_test_lines(out: Seq<char>, m: MemoryView)
    ensures
        ({
            let t = out + ""@ + "\n"@ + "Testing page reuse..."@ + "\n"@;
            match m.next_address() {
                Some(address) => ram_test::with_reuse_test(out, m) == t + "First allocation: "@
                    + text::hexadecimal(address as nat, 0) + "\n"@ + "Freed page"@ + "\n"@
                    + "Second allocation: "@ + text::hexadecimal(address as nat, 0) + "\n"@
                    + "PASS: freed page was reused"@ + "\n"@,
                None => ram_test::with_reuse_test(out, m) == t
                    + "FAIL: initial allocation failed"@ + "\n"@,
            }
        }),
{
}

/// The allocator tests come in order, and each but the first sees the allocator
/// as the bitmap test left it.
pub proof fn law_order_of_allocator_tests(m: MemoryView)
    ensures
        ({
            let rest = ram_test::after_bitmap_test(m);
            let bitmap = ram_test::with_bitmap_test(Seq::empty(), m);
            let single = ram_test::with_single_test(bitmap, rest);
            let multiple = ram_test::with_multiple_test(single, rest);
            ram_test::allocator_tests(m) == ram_test::with_reuse_test(multiple, rest) + ""@
                + "\n"@ + "Testing actual RAM access..."@ + "\n"@
        }),
{
}

/// The test opens with the size of a page, where the RAM starts and ends, where
/// the kernel ends, where the first page lies, and how many pages and bitmap
/// bytes there are.
pub proof fn law_opening_lines(m: MemoryView)
    ensures
        ram_test::opening(m) == "================================"@ + "\n"@
            + "        RAM / PAGE TEST         "@ + "\n"@ + "================================"@
            + "\n"@ + "PAGE_SIZE: "@ + text::decimal(4096) + "\n"@ + "RAM_START: "@
            + text::hexadecimal(0x4000_0000, 0) + "\n"@ + "RAM_END: "@ + text::hexadecimal(
            m.ram_end as nat,
            0,
        ) + "\n"@ + "KERNEL_END: "@ + text::hexadecimal(m.kernel_end as nat, 0) + "\n"@
            + "FIRST_FREE_PAGE: "@ + text::hexadecimal(m.first_free_page as nat, 0) + "\n"@
            + "PAGE_COUNT: "@ + text::decimal(m.page_count as nat) + "\n"@ + "BITMAP_SIZE: "@
            + text::decimal(m.bitmap_size as nat) + "\n"@ + ""@ + "\n"@
            + "Testing page bitmap..."@ + "\n"@,
{
    assert(Seq::<char>::empty() + "================================"@
        =~= "================================"@);
}

/// The test closes with four table entries: the second and the first of level 1,
/// and the first two of level 2 for the RAM.
pub proof fn law_closing_lines(out: Seq<char>, tables: PageTables)
    ensures
        ram_test::with_closing(out, tables) == out + "L0[0] = "@ + text::hexadecimal(
            tables.l1@[1].0 as nat,
            18,
        ) + "\n"@ + "L1[0] = "@ + text::hexadecimal(tables.l1@[0].0 as nat, 18) + "\n"@
            + "L2[0] = "@ + text::hexadecimal(tables.l2_ram@[0].0 as nat, 18) + "\n"@
            + "L2[1] = "@ + text::hexadecimal(tables.l2_ram@[1].0 as nat, 18) + "\n"@ + ""@
            + "\n"@ + "================================"@ + "\n"@
            + "          RAM TESTED            "@ + "\n"@ + "================================"@
            + "\n"@,
{
}

} // verus!
