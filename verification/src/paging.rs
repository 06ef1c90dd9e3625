//! Page tables and the registers of address translation.
use crate::effect::{EffectView, Operation, Script, SystemRegister};
use vstd::prelude::*;

verus! {

/// The memory attributes of normal memory, by their index in `MAIR`.
pub const ATTR_NORMAL: u64 = 0;

/// The memory attributes of device registers, by their index in `MAIR`.
pub const ATTR_DEVICE: u64 = 1;

/// The memory attributes: `0xFF`, write-back memory that allocates on reads
/// and writes, and `0x04`, device memory without gathering or reordering.
pub const MAIR: u64 = 0x04FF;

/// Translation control: 39-bit addresses, 4 KiB granules, walks through inner
/// shareable write-back memory, and 40-bit physical addresses.
pub const TCR: u64 = 0x2_0000_3519;

/// The address bits of a 2 MiB block descriptor.
pub const BLOCK_ADDRESS_MASK: u64 = 0x0000_FFFF_FFE0_0000;

/// A descriptor of a page table.
#[derive(Clone, Copy, PartialEq, Eq, Structural, Debug)]
pub struct PageTableEntry(pub u64);

impl PageTableEntry {
    /// The descriptor that refers to the next table at `table`.
    pub open spec fn table(table: u64) -> PageTableEntry {
        PageTableEntry(table | 0b11)
    }

    /// The descriptor of the 2 MiB block at `address`, with its access flag
    /// set and the attributes at `attr_index`.
    pub open spec fn block(address: u64, attr_index: u64) -> PageTableEntry {
        PageTableEntry((address & BLOCK_ADDRESS_MASK) | 0b01 | 0x400 | (attr_index << 2))
    }

    /// The descriptor that maps nothing.
    pub fn invalid() -> (entry: Self)
        ensures
            entry == PageTableEntry(0),
    {
        PageTableEntry(0)
    }

    /// The descriptor of that value.
    pub fn new(value: u64) -> (entry: Self)
        ensures
            entry == PageTableEntry(value),
    {
        PageTableEntry(value)
    }

    /// Whether the descriptor maps anything: its lowest bit is set.
    pub fn is_valid(&self) -> (valid: bool)
        ensures
            valid == (self.0 % 2 == 1),
    {
        let value: u64 = self.0;
        assert((value & 1 != 0) == (value % 2 == 1)) by (bit_vector);
        self.0 & 1 != 0
    }

    /// The descriptor that refers to the next table at `table`.
    pub fn new_table(table: u64) -> (entry: Self)
        ensures
            entry == Self::table(table),
    {
        PageTableEntry(table | 0b11)
    }

    /// The descriptor of the 2 MiB block at `address`.
    pub fn new_block(address: usize, attr_index: u64) -> (entry: Self)
        ensures
            entry == Self::block(address as u64, attr_index),
    {
        assert(1u64 << 10u64 == 0x400u64) by (bit_vector);
        PageTableEntry(
            (address as u64 & BLOCK_ADDRESS_MASK) | 0b01 | (1u64 << 10u64) | (attr_index << 2),
        )
    }
}

/// A page table of any level.
pub struct PageTable {
    pub entries: [PageTableEntry; 512],
}

impl View for PageTable {
    type V = Seq<PageTableEntry>;

    open spec fn view(&self) -> Seq<PageTableEntry> {
        self.entries@
    }
}

impl PageTable {
    /// A table that maps nothing.
    pub fn new() -> (table: Self)
        ensures
            table@ == Seq::new(512, |i: int| PageTableEntry(0)),
    {
        let table: PageTable = PageTable { entries: [PageTableEntry::invalid(); 512] };
        assert(table@ =~= Seq::new(512, |i: int| PageTableEntry(0)));
        table
    }
}

/// The tables of the kernel's address space.
pub struct PageTables {
    pub l0: PageTable,
    pub l1: PageTable,
    pub l2_ram: PageTable,
    pub l2_device: PageTable,
}

/// Where the tables lie in memory.
#[derive(Clone, Copy)]
pub struct TableAddresses {
    pub l0: u64,
    pub l1: u64,
    pub l2_ram: u64,
    pub l2_device: u64,
}

impl PageTables {
    /// No entry of any table maps anything.
    pub open spec fn maps_nothing(self) -> bool {
        let empty = Seq::new(512, |i: int| PageTableEntry(0));
        &&& self.l0@ == empty
        &&& self.l1@ == empty
        &&& self.l2_ram@ == empty
        &&& self.l2_device@ == empty
    }

    /// The tables are those of `before`, but for the entries of the UART, of
    /// the interrupt controller and of the first 4 MiB of RAM, and for those
    /// that lead to them.
    pub open spec fn configured_from(self, before: PageTables, at: TableAddresses) -> bool {
        &&& self.l0@ == before.l0@.update(0, PageTableEntry::table(at.l1))
        &&& self.l1@ == before.l1@.update(0, PageTableEntry::table(at.l2_device)).update(
            1,
            PageTableEntry::table(at.l2_ram),
        )
        &&& self.l2_device@ == before.l2_device@.update(
            72,
            PageTableEntry::block(0x0900_0000, ATTR_DEVICE),
        ).update(64, PageTableEntry::block(0x0800_0000, ATTR_DEVICE))
        &&& self.l2_ram@ == before.l2_ram@.update(
            0,
            PageTableEntry::block(0x4000_0000, ATTR_NORMAL),
        ).update(1, PageTableEntry::block(0x4020_0000, ATTR_NORMAL))
    }

    /// Tables that map nothing.
    pub fn new() -> (tables: Self)
        ensures
            tables.maps_nothing(),
    {
        PageTables {
            l0: PageTable::new(),
            l1: PageTable::new(),
            l2_ram: PageTable::new(),
            l2_device: PageTable::new(),
        }
    }

    /// Maps the UART, the interrupt controller and the first 4 MiB of RAM.
    ///
    /// Each entry of level 1 covers 1 GiB: the first holds the devices, the
    /// second the RAM. Each entry of level 2 covers 2 MiB. The block at
    /// `0x0800_0000` holds the distributor and the CPU interface of the
    /// interrupt controller.
    pub fn test_page_table(&mut self, at: &TableAddresses)
        ensures
            final(self).configured_from(*old(self), *at),
    {
        self.l0.entries[0] = PageTableEntry::new_table(at.l1);
        self.l1.entries[0] = PageTableEntry::new_table(at.l2_device);
        self.l1.entries[1] = PageTableEntry::new_table(at.l2_ram);
        self.l2_device.entries[72] = PageTableEntry::new_block(0x0900_0000, ATTR_DEVICE);
        self.l2_device.entries[64] = PageTableEntry::new_block(0x0800_0000, ATTR_DEVICE);
        self.l2_ram.entries[0] = PageTableEntry::new_block(0x4000_0000, ATTR_NORMAL);
        self.l2_ram.entries[1] = PageTableEntry::new_block(0x4020_0000, ATTR_NORMAL);
    }
}

/// The write of a register, and the barrier behind it.
pub open spec fn register_set(register: SystemRegister, value: u64) -> Seq<EffectView> {
    seq![
        EffectView::Perform(Operation::WriteRegister { register, value }),
        EffectView::Perform(Operation::InstructionBarrier),
    ]
}

/// The script that sets the memory attributes.
pub fn init_mair() -> (script: Script)
    ensures
        script@ == register_set(SystemRegister::MairEl1, MAIR),
{
    let mut script: Script = Script::new();
    script.write_register(SystemRegister::MairEl1, MAIR);
    script.perform(Operation::InstructionBarrier);
    script
}

/// The script that sets the translation control.
pub fn init_tcr() -> (script: Script)
    ensures
        script@ == register_set(SystemRegister::TcrEl1, TCR),
{
    let tcr: u64 = 25u64 | (0b01u64 << 8u64) | (0b01u64 << 10u64) | (0b11u64 << 12u64) | (0b010u64
        << 32u64);
    assert(25u64 | (0b01u64 << 8u64) | (0b01u64 << 10u64) | (0b11u64 << 12u64) | (0b010u64
        << 32u64) == 0x2_0000_3519u64) by (bit_vector);
    let mut script: Script = Script::new();
    script.write_register(SystemRegister::TcrEl1, tcr);
    script.perform(Operation::InstructionBarrier);
    script
}

/// Sets the root of the tables, and lets the walk see what was stored before.
pub open spec fn root_set(l0: u64) -> Seq<EffectView> {
    seq![
        EffectView::Perform(
            Operation::WriteRegister { register: SystemRegister::Ttbr0El1, value: l0 },
        ),
        EffectView::Perform(Operation::DataBarrier),
        EffectView::Perform(Operation::InstructionBarrier),
    ]
}

/// The script that sets the root of the tables to `l0`.
pub fn init_ttbr0(l0: u64) -> (script: Script)
    ensures
        script@ == root_set(l0),
{
    let mut script: Script = Script::new();
    script.write_register(SystemRegister::Ttbr0El1, l0);
    script.perform(Operation::DataBarrier);
    script.perform(Operation::InstructionBarrier);
    script
}

/// The system control value `sctlr` with translation on and both caches off.
pub open spec fn translating(sctlr: u64) -> u64 {
    (sctlr | 0x1) & !0x4u64 & !0x1000u64
}

/// Turns translation on.
pub open spec fn mmu_enabled(sctlr: u64) -> Seq<EffectView> {
    seq![
        EffectView::Perform(
            Operation::WriteRegister {
                register: SystemRegister::SctlrEl1,
                value: translating(sctlr),
            },
        ),
        EffectView::Perform(Operation::Nop),
        EffectView::Perform(Operation::InstructionBarrier),
    ]
}

/// The script that turns translation on, where the system control register
/// holds `sctlr`.
pub fn enable_mmu(sctlr: u64) -> (script: Script)
    ensures
        script@ == mmu_enabled(sctlr),
{
    assert(1u64 << 0u64 == 0x1u64 && 1u64 << 2u64 == 0x4u64 && 1u64 << 12u64 == 0x1000u64)
        by (bit_vector);
    let mut value: u64 = sctlr;
    value = value | (1u64 << 0u64);
    value = value & !(1u64 << 2u64);
    value = value & !(1u64 << 12u64);
    let mut script: Script = Script::new();
    script.write_register(SystemRegister::SctlrEl1, value);
    script.perform(Operation::Nop);
    script.perform(Operation::InstructionBarrier);
    script
}

} // verus!
