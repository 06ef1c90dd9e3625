//! The allocator of physical pages: one bit for each page behind the kernel
//! image.
use vstd::prelude::*;

verus! {

pub const PAGE_SIZE: usize = 4096;

/// Where the RAM of the board begins.
pub const RAM_START: usize = 0x4000_0000;

/// The end of the RAM that the allocator can manage: 512 MiB behind the start.
pub const MAX_RAM_END: usize = 0x6000_0000;

/// The pages from `RAM_START` to `MAX_RAM_END`.
pub const MAX_PAGE_COUNT: usize = (MAX_RAM_END - RAM_START) / PAGE_SIZE;

/// The bytes that hold a bit for each of these pages.
pub const MAX_BITMAP_SIZE: usize = (MAX_PAGE_COUNT + 7) / 8;

pub struct PageAllocator {
    pub bitmap: [u8; MAX_BITMAP_SIZE],
    pub ram_end: usize,
    pub kernel_end: usize,
    pub first_free_page: usize,
    pub page_count: usize,
    pub bitmap_size: usize,
}

/// What the allocator knows: which pages are in use, counted from the first
/// page behind the kernel, and where they lie.
#[verifier::ext_equal]
pub struct MemoryView {
    pub used: Seq<bool>,
    pub ram_end: int,
    pub kernel_end: int,
    pub first_free_page: int,
    pub page_count: int,
    pub bitmap_size: int,
}

/// Bit `bit` of `byte` is set.
pub open spec fn bit_is_set(byte: u8, bit: u8) -> bool {
    byte & (1u8 << bit) != 0
}

/// The first page boundary at `address` or above it.
pub open spec fn page_boundary(address: int) -> int {
    (address + PAGE_SIZE - 1) / (PAGE_SIZE as int) * PAGE_SIZE
}

impl View for PageAllocator {
    type V = MemoryView;

    open spec fn view(&self) -> MemoryView {
        MemoryView {
            used: Seq::new(
                MAX_PAGE_COUNT as nat,
                |page: int| bit_is_set(self.bitmap@[page / 8], (page % 8) as u8),
            ),
            ram_end: self.ram_end as int,
            kernel_end: self.kernel_end as int,
            first_free_page: self.first_free_page as int,
            page_count: self.page_count as int,
            bitmap_size: self.bitmap_size as int,
        }
    }
}

impl MemoryView {
    /// The managed pages begin at a page boundary behind the kernel, end before
    /// the RAM does, and have a bit each.
    pub open spec fn wf(self) -> bool {
        &&& self.used.len() == MAX_PAGE_COUNT
        &&& 0 <= self.page_count <= MAX_PAGE_COUNT
        &&& 0 <= self.kernel_end <= self.first_free_page
        &&& self.first_free_page % (PAGE_SIZE as int) == 0
        &&& self.first_free_page + self.page_count * PAGE_SIZE <= self.ram_end
        &&& self.bitmap_size == (self.page_count + 7) / 8
    }

    /// The address of page `page`.
    pub open spec fn address_of(self, page: int) -> int {
        self.first_free_page + page * PAGE_SIZE
    }

    /// The page that holds `address`.
    pub open spec fn page_of(self, address: int) -> int {
        (address - self.first_free_page) / (PAGE_SIZE as int)
    }

    /// `address` is that of a managed page in use.
    pub open spec fn is_allocated(self, address: int) -> bool {
        &&& self.first_free_page <= address
        &&& address % (PAGE_SIZE as int) == 0
        &&& self.page_of(address) < self.page_count
        &&& self.used[self.page_of(address)]
    }

    /// Page `page` in use or not.
    pub open spec fn with_page(self, page: int, used: bool) -> MemoryView {
        MemoryView { used: self.used.update(page, used), ..self }
    }

    /// The lowest page from `from` on that is not in use.
    pub open spec fn first_unused_from(self, from: int) -> Option<int>
        decreases self.page_count - from,
    {
        if from >= self.page_count {
            None
        } else if !self.used[from] {
            Some(from)
        } else {
            self.first_unused_from(from + 1)
        }
    }

    /// The page that the next allocation gives.
    pub open spec fn first_unused(self) -> Option<int> {
        self.first_unused_from(0)
    }

    /// The address that the next allocation gives.
    pub open spec fn next_address(self) -> Option<int> {
        match self.first_unused() {
            Some(page) => Some(self.address_of(page)),
            None => None,
        }
    }

    /// The allocator after an allocation: the lowest unused page is in use.
    pub open spec fn after_alloc(self) -> MemoryView {
        match self.first_unused() {
            Some(page) => self.with_page(page, true),
            None => self,
        }
    }

    /// The allocator after the page at `address` was freed.
    pub open spec fn after_free(self, address: int) -> MemoryView {
        self.with_page(self.page_of(address), false)
    }

    /// The allocator as it starts for a kernel that ends at `kernel_end`: it
    /// manages every whole page from there to the end of the RAM, and none is
    /// in use.
    pub open spec fn after_init(self, kernel_end: int) -> MemoryView {
        let first = page_boundary(kernel_end);
        let count = (self.ram_end - first) / (PAGE_SIZE as int);
        let size = (count + 7) / 8;
        MemoryView {
            used: Seq::new(
                self.used.len(),
                |page: int|
                    if page < size * 8 {
                        false
                    } else {
                        self.used[page]
                    },
            ),
            ram_end: self.ram_end,
            kernel_end,
            first_free_page: first,
            page_count: count,
            bitmap_size: size,
        }
    }
}

/// Setting and clearing a bit changes that bit alone.
proof fn lemma_one_bit(byte: u8, bit: u8, other: u8)
    requires
        bit < 8,
        other < 8,
    ensures
        bit_is_set(byte | (1u8 << bit), other) == (bit == other || bit_is_set(byte, other)),
        bit_is_set(byte & !(1u8 << bit), other) == (bit != other && bit_is_set(byte, other)),
{
    assert(((byte | (1u8 << bit)) & (1u8 << other) != 0) == (bit == other || byte & (1u8 << other)
        != 0)) by (bit_vector)
        requires
            bit < 8,
            other < 8,
    ;
    assert(((byte & !(1u8 << bit)) & (1u8 << other) != 0) == (bit != other && byte & (1u8 << other)
        != 0)) by (bit_vector)
        requires
            bit < 8,
            other < 8,
    ;
}

impl PageAllocator {
    /// An allocator that manages no page yet.
    pub fn new() -> (memory: Self)
        ensures
            memory@.wf(),
            memory@ == (MemoryView {
                used: Seq::new(MAX_PAGE_COUNT as nat, |page: int| false),
                ram_end: MAX_RAM_END as int,
                kernel_end: 0,
                first_free_page: 0,
                page_count: 0,
                bitmap_size: 0,
            }),
    {
        let memory: PageAllocator = PageAllocator {
            bitmap: [0; MAX_BITMAP_SIZE],
            ram_end: MAX_RAM_END,
            kernel_end: 0,
            first_free_page: 0,
            page_count: 0,
            bitmap_size: 0,
        };
        proof {
            assert(forall|b: u8| b < 8 ==> !bit_is_set(0u8, b)) by {
                assert(forall|b: u8| b < 8 ==> 0u8 & #[trigger] (1u8 << b) == 0) by (bit_vector);
            }
            assert(memory@.used =~= Seq::new(MAX_PAGE_COUNT as nat, |page: int| false));
        }
        memory
    }

    /// Takes every whole page between the kernel, which ends at `kernel_end`,
    /// and the end of the RAM, none of them in use.
    pub fn init_memory(&mut self, kernel_end: usize)
        requires
            kernel_end + PAGE_SIZE <= usize::MAX,
            page_boundary(kernel_end as int) <= old(self).ram_end,
            (old(self).ram_end - page_boundary(kernel_end as int)) / (PAGE_SIZE as int)
                <= MAX_PAGE_COUNT,
        ensures
            final(self)@.wf(),
            final(self)@ == old(self)@.after_init(kernel_end as int),
    {
        assert(forall|a: usize| #[trigger] (a & !4095usize) == a - a % 4096) by (bit_vector);
        self.kernel_end = kernel_end;
        self.first_free_page = (kernel_end + PAGE_SIZE - 1) & !(PAGE_SIZE - 1);
        self.page_count = (self.ram_end - self.first_free_page) / PAGE_SIZE;
        self.bitmap_size = (self.page_count + 7) / 8;
        let mut i: usize = 0;
        while i < self.bitmap_size
            invariant
                self.bitmap_size <= MAX_BITMAP_SIZE,
                i <= self.bitmap_size,
                forall|j: int| 0 <= j < i ==> #[trigger] self.bitmap@[j] == 0,
                forall|j: int|
                    i <= j < MAX_BITMAP_SIZE ==> #[trigger] self.bitmap@[j] == old(
                        self,
                    ).bitmap@[j],
                self.ram_end == old(self).ram_end,
                self.kernel_end == kernel_end,
                self.first_free_page == page_boundary(kernel_end as int),
                self.page_count == (self.ram_end - self.first_free_page) / PAGE_SIZE as int,
                self.bitmap_size == (self.page_count + 7) / 8,
            decreases self.bitmap_size - i,
        {
            self.bitmap[i] = 0;
            i = i + 1;
        }
        proof {
            assert(forall|b: u8| b < 8 ==> !bit_is_set(0u8, b)) by {
                assert(forall|b: u8| b < 8 ==> 0u8 & #[trigger] (1u8 << b) == 0) by (bit_vector);
            }
            assert(self@.used =~= old(self)@.after_init(kernel_end as int).used);
        }
    }

    /// Whether page `page` is in use.
    pub fn is_page_used(&self, page: usize) -> (used: bool)
        requires
            self@.wf(),
            page < self.page_count,
        ensures
            used == self@.used[page as int],
    {
        let byte: usize = page / 8;
        let bit: u8 = (page % 8) as u8;
        let mask: u8 = 1u8 << bit;
        (self.bitmap[byte] & mask) != 0
    }

    /// Puts page `page` in use.
    pub fn mark_page_used(&mut self, page: usize)
        requires
            old(self)@.wf(),
            page < old(self).page_count,
        ensures
            final(self)@.wf(),
            final(self)@ == old(self)@.with_page(page as int, true),
    {
        let byte: usize = page / 8;
        let bit: u8 = (page % 8) as u8;
        let mask: u8 = 1u8 << bit;
        let before: u8 = self.bitmap[byte];
        self.bitmap[byte] = before | mask;
        proof {
            assert forall|other: int| 0 <= other < MAX_PAGE_COUNT implies self@.used[other]
                == old(self)@.with_page(page as int, true).used[other] by {
                lemma_one_bit(before, bit, (other % 8) as u8);
            }
            assert(self@ =~= old(self)@.with_page(page as int, true));
        }
    }

    /// Takes page `page` out of use.
    pub fn mark_page_free(&mut self, page: usize)
        requires
            old(self)@.wf(),
            page < old(self).page_count,
        ensures
            final(self)@.wf(),
            final(self)@ == old(self)@.with_page(page as int, false),
    {
        let byte: usize = page / 8;
        let bit: u8 = (page % 8) as u8;
        let mask: u8 = 1u8 << bit;
        let before: u8 = self.bitmap[byte];
        self.bitmap[byte] = before & !mask;
        proof {
            assert forall|other: int| 0 <= other < MAX_PAGE_COUNT implies self@.used[other]
                == old(self)@.with_page(page as int, false).used[other] by {
                lemma_one_bit(before, bit, (other % 8) as u8);
            }
            assert(self@ =~= old(self)@.with_page(page as int, false));
        }
    }

    /// Puts the lowest unused page in use and gives its address, if there is
    /// one.
    pub fn alloc_page(&mut self) -> (address: Option<usize>)
        requires
            old(self)@.wf(),
        ensures
            final(self)@.wf(),
            final(self)@ == old(self)@.after_alloc(),
            match address {
                Some(address) => old(self)@.next_address() == Some(address as int),
                None => old(self)@.next_address() is None,
            },
    {
        let mut page: usize = 0;
        while page < self.page_count
            invariant
                *self == *old(self),
                self@.wf(),
                page <= self.page_count,
                self@.first_unused() == self@.first_unused_from(page as int),
            decreases self.page_count - page,
        {
            if !self.is_page_used(page) {
                self.mark_page_used(page);
                assert(page * PAGE_SIZE <= self.page_count * PAGE_SIZE) by (nonlinear_arith)
                    requires
                        page <= self.page_count,
                ;
                let address: usize = self.first_free_page + page * PAGE_SIZE;
                return Some(address);
            }
            page = page + 1;
        }
        None
    }

    /// Takes the page at `address` out of use.
    pub fn free_page(&mut self, address: usize)
        requires
            old(self)@.wf(),
            old(self)@.is_allocated(address as int),
        ensures
            final(self)@.wf(),
            final(self)@ == old(self)@.after_free(address as int),
    {
        let page: usize = (address - self.first_free_page) / PAGE_SIZE;
        self.mark_page_free(page);
    }
}

} // verus!
