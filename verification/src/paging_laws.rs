//! What the tables say, read as they are laid out, and what the fields of the
//! translation registers are.
//!
//! The laws on the tables follow them from level 0 down. They do not describe
//! the walk that a core makes under `TCR`: with 39-bit addresses and 4 KiB
//! granules a core starts at level 1, with the table that `TTBR0_EL1` names.
use crate::effect::{EffectView, Operation, SystemRegister};
use crate::gic::Gic;
use crate::paging;
use crate::paging::{
    PageTableEntry, PageTables, TableAddresses, ATTR_DEVICE, ATTR_NORMAL, BLOCK_ADDRESS_MASK, MAIR,
    TCR,
};
use crate::uart::UART_BASE;
use vstd::prelude::*;

verus! {

/// The address bits of a descriptor that refers to a table.
pub const TABLE_ADDRESS_MASK: u64 = 0x0000_FFFF_FFFF_F000;

impl PageTableEntry {
    /// The descriptor refers to a table.
    pub open spec fn is_table(self) -> bool {
        self.0 & 0b11 == 0b11
    }

    /// The descriptor maps a block.
    pub open spec fn is_block(self) -> bool {
        self.0 & 0b11 == 0b01
    }

    /// The address of the table that the descriptor refers to.
    pub open spec fn table_address(self) -> u64 {
        self.0 & TABLE_ADDRESS_MASK
    }

    /// The address of the block that the descriptor maps.
    pub open spec fn block_address(self) -> u64 {
        self.0 & BLOCK_ADDRESS_MASK
    }

    /// The index of the block's memory attributes.
    pub open spec fn attr_index(self) -> u64 {
        (self.0 >> 2) & 0b111
    }

    /// The access flag of the block.
    pub open spec fn accessed(self) -> bool {
        self.0 & 0x400 != 0
    }
}

/// A descriptor made for a table at a page boundary refers to that table.
pub proof fn law_table_entry_refers_to_its_table(table: u64)
    requires
        table & !TABLE_ADDRESS_MASK == 0,
    ensures
        PageTableEntry::table(table).is_table(),
        PageTableEntry::table(table).table_address() == table,
{
    assert((table | 0b11) & 0b11 == 0b11) by (bit_vector);
    assert((table | 0b11) & 0x0000_FFFF_FFFF_F000 == table) by (bit_vector)
        requires
            table & !0x0000_FFFF_FFFF_F000u64 == 0,
    ;
}

/// A descriptor made for a 2 MiB block maps the block that holds the address,
/// with the attributes asked for and the access flag set.
pub proof fn law_block_entry_maps_its_block(address: u64, attr_index: u64)
    requires
        attr_index < 8,
    ensures
        PageTableEntry::block(address, attr_index).is_block(),
        PageTableEntry::block(address, attr_index).block_address() == address & BLOCK_ADDRESS_MASK,
        PageTableEntry::block(address, attr_index).attr_index() == attr_index,
        PageTableEntry::block(address, attr_index).accessed(),
{
    let entry = (address & 0x0000_FFFF_FFE0_0000) | 0b01 | 0x400 | (attr_index << 2);
    assert(entry & 0b11 == 0b01 && entry & 0x0000_FFFF_FFE0_0000 == address & 0x0000_FFFF_FFE0_0000
        && (entry >> 2) & 0b111 == attr_index && entry & 0x400 != 0) by (bit_vector)
        requires
            attr_index < 8,
            entry == (address & 0x0000_FFFF_FFE0_0000) | 0b01 | 0x400 | (attr_index << 2),
    ;
}

/// The level-2 table that `entry` refers to.
pub open spec fn level_2(
    tables: PageTables,
    at: TableAddresses,
    entry: PageTableEntry,
) -> Option<Seq<PageTableEntry>> {
    if !entry.is_table() {
        None
    } else if entry.table_address() == at.l2_device {
        Some(tables.l2_device@)
    } else if entry.table_address() == at.l2_ram {
        Some(tables.l2_ram@)
    } else {
        None
    }
}

/// The block descriptor that the tables hold for `address`, read as they are
/// laid out: from level 0 down, with 9 bits of a 48-bit address for each level.
/// This is not the walk of a core under `TCR`, which starts at level 1.
pub open spec fn lookup(
    tables: PageTables,
    at: TableAddresses,
    address: int,
) -> Option<PageTableEntry> {
    let top = tables.l0@[address / 0x80_0000_0000 % 512];
    let middle = tables.l1@[address / 0x4000_0000 % 512];
    if !top.is_table() || top.table_address() != at.l1 {
        None
    } else {
        match level_2(tables, at, middle) {
            None => None,
            Some(table) => {
                let entry = table[address / 0x20_0000 % 512];
                if entry.is_block() {
                    Some(entry)
                } else {
                    None
                }
            },
        }
    }
}

/// The tables lie at distinct page boundaries.
pub open spec fn placed(at: TableAddresses) -> bool {
    &&& at.l1 & !TABLE_ADDRESS_MASK == 0
    &&& at.l2_device & !TABLE_ADDRESS_MASK == 0
    &&& at.l2_ram & !TABLE_ADDRESS_MASK == 0
    &&& at.l2_device != at.l2_ram
}

/// The 2 MiB blocks of the interrupt controller and of the UART.
pub open spec fn is_device_address(address: int) -> bool {
    0x0800_0000 <= address < 0x0820_0000 || 0x0900_0000 <= address < 0x0920_0000
}

/// The first 4 MiB of RAM.
pub open spec fn is_ram_address(address: int) -> bool {
    0x4000_0000 <= address < 0x4040_0000
}

/// Read from level 0 down, as they are laid out, and not as a core walks them
/// under `TCR`, the tables that `test_page_table` makes of empty ones map the
/// blocks of the interrupt controller and of the UART as device memory and the
/// first 4 MiB of RAM as normal memory, each address to itself, and nothing
/// else.
pub proof fn law_tables_map_devices_and_ram_to_themselves(
    before: PageTables,
    tables: PageTables,
    at: TableAddresses,
    address: int,
)
    requires
        before.maps_nothing(),
        tables.configured_from(before, at),
        placed(at),
        0 <= address < 0x1_0000_0000_0000,
    ensures
        match lookup(tables, at, address) {
            Some(entry) => {
                &&& is_device_address(address) || is_ram_address(address)
                &&& entry.block_address() + address % 0x20_0000 == address
                &&& entry.attr_index() == if is_device_address(address) {
                    ATTR_DEVICE
                } else {
                    ATTR_NORMAL
                }
                &&& entry.accessed()
            },
            None => !is_device_address(address) && !is_ram_address(address),
        },
{
    law_table_entry_refers_to_its_table(at.l1);
    law_table_entry_refers_to_its_table(at.l2_device);
    law_table_entry_refers_to_its_table(at.l2_ram);
    law_block_entry_maps_its_block(0x0900_0000, ATTR_DEVICE);
    law_block_entry_maps_its_block(0x0800_0000, ATTR_DEVICE);
    law_block_entry_maps_its_block(0x4000_0000, ATTR_NORMAL);
    law_block_entry_maps_its_block(0x4020_0000, ATTR_NORMAL);
    assert(0u64 & 0b11 == 0 && 0x0900_0000u64 & 0x0000_FFFF_FFE0_0000 == 0x0900_0000
        && 0x0800_0000u64 & 0x0000_FFFF_FFE0_0000 == 0x0800_0000 && 0x4000_0000u64
        & 0x0000_FFFF_FFE0_0000 == 0x4000_0000 && 0x4020_0000u64 & 0x0000_FFFF_FFE0_0000
        == 0x4020_0000) by (bit_vector);
    let i0 = address / 0x80_0000_0000 % 512;
    let i1 = address / 0x4000_0000 % 512;
    let i2 = address / 0x20_0000 % 512;
    assert(i0 != 0 ==> !tables.l0@[i0].is_table());
    assert(i1 > 1 ==> !tables.l1@[i1].is_table());
    assert(i2 != 64 && i2 != 72 ==> !tables.l2_device@[i2].is_block());
    assert(i2 > 1 ==> !tables.l2_ram@[i2].is_block());
}

/// The attribute indices of the block descriptors select what `MAIR` holds:
/// write-back memory for the RAM, device memory for the registers.
pub proof fn law_mair_holds_both_attributes()
    ensures
        (MAIR >> (8 * ATTR_NORMAL)) & 0xFF == 0xFF,
        (MAIR >> (8 * ATTR_DEVICE)) & 0xFF == 0x04,
{
    assert((0x04FFu64 >> 0u64) & 0xFF == 0xFF) by (bit_vector);
    assert((0x04FFu64 >> 8u64) & 0xFF == 0x04) by (bit_vector);
}

/// The fields of the translation control: 64 - 25 address bits, write-back
/// inner and outer walks, inner shareable, 4 KiB granules, 40 physical bits.
pub proof fn law_tcr_fields()
    ensures
        TCR % 64 == 25,
        TCR / 0x100 % 4 == 0b01,
        TCR / 0x400 % 4 == 0b01,
        TCR / 0x1000 % 4 == 0b11,
        TCR / 0x4000 % 4 == 0b00,
        TCR / 0x1_0000_0000 % 8 == 0b010,
{
}

/// Turning translation on sets the translation bit, clears both cache bits,
/// and keeps every other bit of the system control register.
pub proof fn law_enabling_mmu_touches_three_bits(sctlr: u64, bit: u64)
    requires
        bit < 64,
    ensures
        (crate::paging::translating(sctlr) >> bit) & 1 == if bit == 0 {
            1
        } else if bit == 2 || bit == 12 {
            0
        } else {
            (sctlr >> bit) & 1
        },
{
    assert((((sctlr | 0x1) & !0x4u64 & !0x1000u64) >> bit) & 1 == (if bit == 0 {
        1
    } else if bit == 2 || bit == 12 {
        0
    } else {
        (sctlr >> bit) & 1
    })) by (bit_vector)
        requires
            bit < 64,
    ;
}

/// The registers of the UART and of the interrupt controller that the kernel
/// stores to lie in the blocks that are mapped as devices.
pub proof fn law_device_registers_are_mapped(gic: Gic)
    requires
        gic.dist == 0x0800_0000,
        gic.cpu == 0x0801_0000,
    ensures
        is_device_address(UART_BASE as int),
        is_device_address(gic.dist as int),
        is_device_address(gic.dist + 0x100),
        is_device_address(gic.cpu as int),
        is_device_address(gic.cpu + 0x004),
{
}

/// Every bit of a table descriptor: the two lowest are set, and the others are
/// those of the table's address.
pub proof fn law_table_entry_bits(table: u64, bit: u64)
    requires
        bit < 64,
    ensures
        (PageTableEntry::table(table).0 >> bit) & 1 == if bit < 2 {
            1
        } else {
            (table >> bit) & 1
        },
{
    assert(((table | 0b11) >> bit) & 1 == (if bit < 2 {
        1
    } else {
        (table >> bit) & 1
    })) by (bit_vector)
        requires
            bit < 64,
    ;
}

/// Every bit of a block descriptor: bit 0 and the access flag, bit 10, are set,
/// bits 21 to 47 show those of the address, and from bit 2 on the attribute
/// index is laid over them.
pub proof fn law_block_entry_bits(address: u64, attr_index: u64, bit: u64)
    requires
        bit < 64,
    ensures
        ((PageTableEntry::block(address, attr_index).0 >> bit) & 1 == 1) == (bit == 0 || bit == 10
            || (21 <= bit < 48 && (address >> bit) & 1 == 1) || (bit >= 2 && (attr_index >> ((bit
            - 2) as u64)) & 1 == 1)),
{
    let low = if bit >= 2 {
        (bit - 2) as u64
    } else {
        0
    };
    assert(((((address & 0x0000_FFFF_FFE0_0000) | 0b01 | 0x400 | (attr_index << 2)) >> bit) & 1
        == 1) == (bit == 0 || bit == 10 || (21 <= bit < 48 && (address >> bit) & 1 == 1) || (bit
        >= 2 && (attr_index >> low) & 1 == 1))) by (bit_vector)
        requires
            bit < 64,
            bit >= 2 ==> bit == low + 2,
    ;
}

/// Tables that map nothing hold zero in each of their 512 entries.
pub proof fn law_empty_tables_are_zero(tables: PageTables)
    ensures
        tables.maps_nothing() <==> forall|i: int|
            0 <= i < 512 ==> (#[trigger] tables.l0@[i]).0 == 0 && tables.l1@[i].0 == 0
                && tables.l2_ram@[i].0 == 0 && tables.l2_device@[i].0 == 0,
{
    let empty = Seq::new(512, |i: int| PageTableEntry(0));
    if forall|i: int|
        0 <= i < 512 ==> (#[trigger] tables.l0@[i]).0 == 0 && tables.l1@[i].0 == 0
            && tables.l2_ram@[i].0 == 0 && tables.l2_device@[i].0 == 0 {
        assert forall|i: int| 0 <= i < 512 implies tables.l0@[i] == PageTableEntry(0)
            && tables.l1@[i] == PageTableEntry(0) && tables.l2_ram@[i] == PageTableEntry(0)
            && tables.l2_device@[i] == PageTableEntry(0) by {
            assert(tables.l0@[i].0 == 0);
        }
        assert(tables.l0@ =~= empty);
        assert(tables.l1@ =~= empty);
        assert(tables.l2_ram@ =~= empty);
        assert(tables.l2_device@ =~= empty);
    }
    if tables.maps_nothing() {
        assert forall|i: int| 0 <= i < 512 implies (#[trigger] tables.l0@[i]).0 == 0
            && tables.l1@[i].0 == 0 && tables.l2_ram@[i].0 == 0 && tables.l2_device@[i].0 == 0 by {
            assert(empty[i] == PageTableEntry(0));
        }
    }
}

/// Setting the tables up writes seven entries and keeps the others: those that
/// lead from level 0 to level 1 and from there to the devices and to the RAM, by
/// the addresses of the tables, and those of two device blocks and two RAM
/// blocks.
pub proof fn law_setup_writes_seven_entries(
    before: PageTables,
    tables: PageTables,
    at: TableAddresses,
    i: int,
)
    requires
        tables.configured_from(before, at),
        0 <= i < 512,
    ensures
        tables.l0@[i].0 == if i == 0 {
            at.l1 | 0b11
        } else {
            before.l0@[i].0
        },
        tables.l1@[i].0 == if i == 0 {
            at.l2_device | 0b11
        } else if i == 1 {
            at.l2_ram | 0b11
        } else {
            before.l1@[i].0
        },
        tables.l2_device@[i].0 == if i == 64 {
            0x0800_0405
        } else if i == 72 {
            0x0900_0405
        } else {
            before.l2_device@[i].0
        },
        tables.l2_ram@[i].0 == if i == 0 {
            0x4000_0401
        } else if i == 1 {
            0x4020_0401
        } else {
            before.l2_ram@[i].0
        },
{
    assert((0x0800_0000u64 & 0x0000_FFFF_FFE0_0000) | 0b01 | 0x400 | (1u64 << 2) == 0x0800_0405
        && (0x0900_0000u64 & 0x0000_FFFF_FFE0_0000) | 0b01 | 0x400 | (1u64 << 2) == 0x0900_0405
        && (0x4000_0000u64 & 0x0000_FFFF_FFE0_0000) | 0b01 | 0x400 | (0u64 << 2) == 0x4000_0401
        && (0x4020_0000u64 & 0x0000_FFFF_FFE0_0000) | 0b01 | 0x400 | (0u64 << 2) == 0x4020_0401)
        by (bit_vector);
}

/// Setting a translation register writes exactly the value asked for to it, and
/// then refetches.
pub proof fn law_register_gets_its_value(register: SystemRegister, value: u64)
    ensures
        paging::register_set(register, value).len() == 2,
        paging::register_set(register, value)[0] == EffectView::Perform(
            Operation::WriteRegister { register, value },
        ),
        paging::register_set(register, value)[1] == EffectView::Perform(
            Operation::InstructionBarrier,
        ),
{
}

/// The root register gets exactly the address of the root table, then what was
/// stored before is completed, then the core refetches.
pub proof fn law_root_register_gets_the_table(l0: u64)
    ensures
        paging::root_set(l0).len() == 3,
        paging::root_set(l0)[0] == EffectView::Perform(
            Operation::WriteRegister { register: SystemRegister::Ttbr0El1, value: l0 },
        ),
        paging::root_set(l0)[1] == EffectView::Perform(Operation::DataBarrier),
        paging::root_set(l0)[2] == EffectView::Perform(Operation::InstructionBarrier),
{
}

/// Turning translation on writes the system control register once: with the
/// translation bit set, both cache bits clear and every other bit as it was.
pub proof fn law_enabling_mmu_writes_once(sctlr: u64, bit: u64)
    requires
        bit < 64,
    ensures
        paging::mmu_enabled(sctlr).len() == 3,
        match paging::mmu_enabled(sctlr)[0] {
            EffectView::Perform(Operation::WriteRegister { register, value }) => {
                &&& register == SystemRegister::SctlrEl1
                &&& (value >> bit) & 1 == if bit == 0 {
                    1
                } else if bit == 2 || bit == 12 {
                    0
                } else {
                    (sctlr >> bit) & 1
                }
            },
            _ => false,
        },
        paging::mmu_enabled(sctlr)[1] == EffectView::Perform(Operation::Nop),
        paging::mmu_enabled(sctlr)[2] == EffectView::Perform(Operation::InstructionBarrier),
{
    law_enabling_mmu_touches_three_bits(sctlr, bit);
}

} // verus!
