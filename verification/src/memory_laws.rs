//! What holds of every run of the page allocator.
use crate::memory;
use crate::memory::{
    MemoryView, PageAllocator, MAX_PAGE_COUNT, MAX_RAM_END, PAGE_SIZE, RAM_START,
};
use vstd::prelude::*;

verus! {

impl MemoryView {
    /// The allocator after `count` allocations in a row.
    pub open spec fn after_allocs(self, count: nat) -> MemoryView
        decreases count,
    {
        if count == 0 {
            self
        } else {
            self.after_allocs((count - 1) as nat).after_alloc()
        }
    }

    /// No managed page is in use.
    pub open spec fn all_unused(self) -> bool {
        forall|page: int| 0 <= page < self.page_count ==> !#[trigger] self.used[page]
    }
}

/// What the search from `from` on finds.
proof fn lemma_first_unused_from(m: MemoryView, from: int)
    requires
        0 <= from,
    ensures
        match m.first_unused_from(from) {
            Some(page) => {
                &&& from <= page < m.page_count
                &&& !m.used[page]
                &&& forall|lower: int| from <= lower < page ==> m.used[lower]
            },
            None => forall|page: int| from <= page < m.page_count ==> m.used[page],
        },
    decreases m.page_count - from,
{
    if from < m.page_count && m.used[from] {
        lemma_first_unused_from(m, from + 1);
    }
}

/// The pages and their addresses correspond.
proof fn lemma_page_of_address(m: MemoryView, page: int)
    requires
        m.wf(),
        0 <= page < m.page_count,
    ensures
        m.page_of(m.address_of(page)) == page,
        m.address_of(page) % (PAGE_SIZE as int) == 0,
        m.first_free_page <= m.address_of(page),
        m.address_of(page) + PAGE_SIZE <= m.ram_end,
{
}

/// An allocation gives the lowest managed page that is not in use, and fails
/// exactly where every page is in use.
pub proof fn law_alloc_takes_the_lowest_unused_page(m: MemoryView)
    requires
        m.wf(),
    ensures
        match m.first_unused() {
            Some(page) => {
                &&& 0 <= page < m.page_count
                &&& !m.used[page]
                &&& forall|lower: int| 0 <= lower < page ==> m.used[lower]
                &&& m.next_address() == Some(m.address_of(page))
            },
            None => {
                &&& forall|page: int| 0 <= page < m.page_count ==> m.used[page]
                &&& m.next_address() is None
            },
        },
{
    lemma_first_unused_from(m, 0);
}

/// An allocation gives a whole page at a page boundary, behind the kernel and
/// inside the RAM, that was free before and is in use afterwards.
pub proof fn law_allocated_page_is_usable(m: MemoryView)
    requires
        m.wf(),
        m.next_address() is Some,
    ensures
        ({
            let address = m.next_address()->0;
            &&& address % (PAGE_SIZE as int) == 0
            &&& m.kernel_end <= address
            &&& address + PAGE_SIZE <= m.ram_end
            &&& !m.is_allocated(address)
            &&& m.after_alloc().is_allocated(address)
        }),
{
    lemma_first_unused_from(m, 0);
    lemma_page_of_address(m, m.first_unused()->0);
}

/// A page in use is not given out again.
pub proof fn law_page_in_use_is_not_given_out(m: MemoryView, address: int)
    requires
        m.wf(),
        m.is_allocated(address),
    ensures
        m.next_address() != Some(address),
        m.after_alloc().is_allocated(address),
{
    lemma_first_unused_from(m, 0);
    if m.next_address() is Some {
        lemma_page_of_address(m, m.first_unused()->0);
    }
}

/// Two pages in use at different addresses do not overlap.
pub proof fn law_pages_do_not_overlap(m: MemoryView, lower: int, upper: int)
    requires
        m.wf(),
        m.is_allocated(lower),
        m.is_allocated(upper),
        lower < upper,
    ensures
        lower + PAGE_SIZE <= upper,
{
}

/// Two allocations in a row give different pages.
pub proof fn law_allocations_are_unique(m: MemoryView)
    requires
        m.wf(),
        m.next_address() is Some,
    ensures
        m.after_alloc().next_address() != m.next_address(),
{
    law_allocated_page_is_usable(m);
    law_page_in_use_is_not_given_out(m.after_alloc(), m.next_address()->0);
}

/// Freeing the page that was just allocated undoes the allocation.
pub proof fn law_free_undoes_alloc(m: MemoryView)
    requires
        m.wf(),
        m.next_address() is Some,
    ensures
        m.after_alloc().after_free(m.next_address()->0) == m,
{
    lemma_first_unused_from(m, 0);
    lemma_page_of_address(m, m.first_unused()->0);
    assert(m.after_alloc().after_free(m.next_address()->0) =~= m);
}

/// A page that was allocated and freed is the one that is allocated next.
pub proof fn law_freed_page_is_reused(m: MemoryView)
    requires
        m.wf(),
        m.next_address() is Some,
    ensures
        m.after_alloc().after_free(m.next_address()->0).next_address() == m.next_address(),
{
    law_free_undoes_alloc(m);
}

/// A freed page is no longer in use, the pages beside it stay as they were, and
/// the next allocation finds that page or a lower one.
pub proof fn law_freed_page_is_available(m: MemoryView, address: int, other: int)
    requires
        m.wf(),
        m.is_allocated(address),
        other != address,
    ensures
        m.after_free(address).wf(),
        !m.after_free(address).is_allocated(address),
        m.after_free(address).is_allocated(other) == m.is_allocated(other),
        m.after_free(address).next_address() is Some,
        m.after_free(address).next_address()->0 <= address,
{
    let after = m.after_free(address);
    lemma_first_unused_from(after, 0);
    let page = m.page_of(address);
    assert(address == m.address_of(page));
    assert(!after.used[page]);
    assert(after.first_unused() is Some);
    assert(after.first_unused()->0 <= page);
    if m.page_of(other) == page && m.first_free_page <= other && other % (PAGE_SIZE as int) == 0 {
        assert(other == m.address_of(page));
    }
}

/// Freeing a page in use and putting it in use again changes nothing.
pub proof fn law_mark_undoes_free(m: MemoryView, address: int)
    requires
        m.wf(),
        m.is_allocated(address),
    ensures
        m.after_free(address).with_page(m.page_of(address), true) == m,
{
    assert(m.after_free(address).with_page(m.page_of(address), true) =~= m);
}

/// From a start with every page unused the allocations give the pages in
/// order, each of them once, and when all are given every further one fails and
/// changes nothing.
pub proof fn law_fresh_allocator_gives_every_page(m: MemoryView, count: nat)
    requires
        m.wf(),
        m.all_unused(),
    ensures
        m.after_allocs(count).next_address() == if count < m.page_count {
            Some(m.address_of(count as int))
        } else {
            None
        },
        forall|page: int|
            0 <= page < m.page_count ==> #[trigger] m.after_allocs(count).used[page] == (page
                < count),
        count >= m.page_count ==> m.after_allocs(count) == m.after_allocs(m.page_count as nat),
    decreases count,
{
    lemma_allocs_keep_layout(m, count);
    let now = m.after_allocs(count);
    if count > 0 {
        let before = m.after_allocs((count - 1) as nat);
        law_fresh_allocator_gives_every_page(m, (count - 1) as nat);
        lemma_allocs_keep_layout(m, (count - 1) as nat);
        lemma_first_unused_from(before, 0);
        assert forall|page: int| 0 <= page < m.page_count implies #[trigger] now.used[page] == (
        page < count) by {
            assert(before.used[page] == (page < count - 1));
            if count <= m.page_count {
                assert(!before.used[count - 1]);
            }
        }
    }
    lemma_first_unused_from(now, 0);
    if count < m.page_count {
        assert(!now.used[count as int]);
    }
}

/// Allocations do not move the managed pages.
proof fn lemma_allocs_keep_layout(m: MemoryView, count: nat)
    requires
        m.wf(),
    ensures
        m.after_allocs(count).wf(),
        m.after_allocs(count).page_count == m.page_count,
        m.after_allocs(count).first_free_page == m.first_free_page,
    decreases count,
{
    if count > 0 {
        lemma_allocs_keep_layout(m, (count - 1) as nat);
        lemma_first_unused_from(m.after_allocs((count - 1) as nat), 0);
    }
}

/// The allocator that `init_memory` leaves manages every whole page from the
/// kernel to the end of the RAM, and none is in use.
pub proof fn law_init_frees_everything(m: MemoryView, kernel_end: int)
    requires
        0 <= kernel_end,
        m.after_init(kernel_end).wf(),
    ensures
        m.after_init(kernel_end).all_unused(),
        kernel_end <= m.after_init(kernel_end).first_free_page < kernel_end + PAGE_SIZE,
        m.ram_end - PAGE_SIZE < m.after_init(kernel_end).address_of(
            m.after_init(kernel_end).page_count,
        ) <= m.ram_end,
{
}

/// Every kernel that ends in the RAM that the allocator can manage can have the
/// rest of that RAM managed.
pub proof fn law_kernel_in_ram_can_be_managed(kernel_end: int)
    requires
        RAM_START <= kernel_end <= MAX_RAM_END,
    ensures
        kernel_end + PAGE_SIZE <= usize::MAX,
        memory::page_boundary(kernel_end) <= MAX_RAM_END,
        (MAX_RAM_END - memory::page_boundary(kernel_end)) / (PAGE_SIZE as int) <= MAX_PAGE_COUNT,
{
}

/// The boundary of an address is the first multiple of the page size that is not
/// below it.
pub proof fn law_page_boundary_is_the_next_one(address: int)
    ensures
        memory::page_boundary(address) % 4096 == 0,
        address <= memory::page_boundary(address) < address + 4096,
{
}

/// The pages lie one behind the other, each of 4 KiB, from the first page on;
/// and an address lies in the page that is found for it.
pub proof fn law_pages_are_contiguous(m: MemoryView, page: int, address: int)
    ensures
        m.address_of(0) == m.first_free_page,
        m.address_of(page + 1) == m.address_of(page) + 4096,
        m.page_of(m.address_of(page)) == page,
        m.address_of(m.page_of(address)) <= address < m.address_of(m.page_of(address) + 1),
{
}

/// The addresses in use are those of the managed pages in use, and no others.
pub proof fn law_allocated_addresses(m: MemoryView, address: int)
    requires
        m.wf(),
    ensures
        m.is_allocated(address) <==> exists|page: int|
            0 <= page < m.page_count && #[trigger] m.used[page] && address == m.first_free_page
                + page * 4096,
{
    if m.is_allocated(address) {
        let page = m.page_of(address);
        assert(m.used[page] && address == m.first_free_page + page * 4096);
    }
    if exists|page: int|
        0 <= page < m.page_count && #[trigger] m.used[page] && address == m.first_free_page + page
            * 4096 {
        let page = choose|page: int|
            0 <= page < m.page_count && #[trigger] m.used[page] && address == m.first_free_page
                + page * 4096;
        assert(m.page_of(address) == page);
    }
}

/// The layout of the pages is the same.
pub open spec fn same_layout(m: MemoryView, after: MemoryView) -> bool {
    &&& after.ram_end == m.ram_end
    &&& after.kernel_end == m.kernel_end
    &&& after.first_free_page == m.first_free_page
    &&& after.page_count == m.page_count
    &&& after.bitmap_size == m.bitmap_size
    &&& after.used.len() == m.used.len()
}

/// Marking a page sets it and changes no other page.
pub proof fn law_marking_changes_one_page(m: MemoryView, page: int, used: bool, other: int)
    requires
        0 <= page < m.used.len(),
        0 <= other < m.used.len(),
    ensures
        same_layout(m, m.with_page(page, used)),
        m.with_page(page, used).used[other] == if other == page {
            used
        } else {
            m.used[other]
        },
{
}

/// An allocation puts the page at the address that it gives in use and changes
/// no other page; one that fails changes nothing.
pub proof fn law_alloc_changes_one_page(m: MemoryView, other: int)
    requires
        m.wf(),
        0 <= other < m.used.len(),
    ensures
        same_layout(m, m.after_alloc()),
        m.after_alloc().used[other] == (m.used[other] || m.next_address() == Some(
            m.first_free_page + other * 4096,
        )),
{
    lemma_first_unused_from(m, 0);
}

/// An allocation gives the lowest address of a managed page that is not in use,
/// and fails exactly where every managed page is in use.
pub proof fn law_alloc_gives_the_lowest_address(m: MemoryView)
    requires
        m.wf(),
    ensures
        match m.next_address() {
            Some(address) => {
                &&& exists|page: int|
                    0 <= page < m.page_count && !(#[trigger] m.used[page]) && address
                        == m.first_free_page + page * 4096
                &&& forall|page: int|
                    0 <= page < m.page_count && !(#[trigger] m.used[page]) ==> address
                        <= m.first_free_page + page * 4096
            },
            None => forall|page: int| 0 <= page < m.page_count ==> #[trigger] m.used[page],
        },
{
    lemma_first_unused_from(m, 0);
    if m.next_address() is Some {
        assert(!m.used[m.first_unused()->0]);
    }
}

/// Freeing an address takes its page out of use and changes no other page.
pub proof fn law_free_changes_one_page(m: MemoryView, address: int, other: int)
    requires
        m.wf(),
        m.is_allocated(address),
        0 <= other < m.used.len(),
    ensures
        same_layout(m, m.after_free(address)),
        m.after_free(address).used[other] == (m.used[other] && address != m.first_free_page + other
            * 4096),
{
}

/// Setting the allocator up clears the bits of its bitmap bytes and no others,
/// keeps the end of the RAM and records the end of the kernel.
pub proof fn law_init_sets_the_layout(m: MemoryView, kernel_end: int, page: int)
    requires
        0 <= kernel_end,
        0 <= page < m.used.len(),
    ensures
        ({
            let after = m.after_init(kernel_end);
            &&& after.ram_end == m.ram_end
            &&& after.kernel_end == kernel_end
            &&& after.first_free_page % 4096 == 0
            &&& kernel_end <= after.first_free_page < kernel_end + 4096
            &&& after.page_count * 4096 <= m.ram_end - after.first_free_page < after.page_count
                * 4096 + 4096
            &&& after.bitmap_size * 8 - 8 < after.page_count <= after.bitmap_size * 8
            &&& after.used.len() == m.used.len()
            &&& after.used[page] == (m.used[page] && page >= after.bitmap_size * 8)
        }),
{
}

/// The view shows the fields, and page `page` is in use exactly where its bit is
/// set: bit `page % 8` of byte `page / 8`.
pub proof fn law_view_shows_the_bitmap(allocator: PageAllocator, page: int)
    requires
        0 <= page < 131072,
    ensures
        allocator@.used.len() == 131072,
        allocator@.used[page] == ((allocator.bitmap@[page / 8] >> ((page % 8) as u8)) & 1u8 == 1u8),
        allocator@.ram_end == allocator.ram_end,
        allocator@.kernel_end == allocator.kernel_end,
        allocator@.first_free_page == allocator.first_free_page,
        allocator@.page_count == allocator.page_count,
        allocator@.bitmap_size == allocator.bitmap_size,
{
    let byte = allocator.bitmap@[page / 8];
    let bit = (page % 8) as u8;
    assert((byte & (1u8 << bit) != 0) == ((byte >> bit) & 1u8 == 1u8)) by (bit_vector)
        requires
            bit < 8,
    ;
}

/// The allocator is valid where its pages begin at a page boundary behind the
/// kernel, end inside the RAM, and fit the bitmap, and in no other case.
pub proof fn law_valid_memory(m: MemoryView)
    ensures
        m.wf() <==> {
            &&& m.used.len() == 131072
            &&& 0 <= m.page_count <= 131072
            &&& 0 <= m.kernel_end <= m.first_free_page
            &&& m.first_free_page % 4096 == 0
            &&& m.first_free_page + m.page_count * 4096 <= m.ram_end
            &&& m.bitmap_size * 8 - 8 < m.page_count <= m.bitmap_size * 8
        },
{
}

} // verus!
