use armkernel::effect::{Effect, Operation, Script, SystemRegister};
use armkernel::paging::{
    enable_mmu, init_mair, init_tcr, init_ttbr0, PageTable, PageTableEntry, PageTables,
    TableAddresses, ATTR_DEVICE, ATTR_NORMAL,
};

const AT: TableAddresses = TableAddresses {
    l0: 0x4004_0000,
    l1: 0x4004_1000,
    l2_ram: 0x4004_2000,
    l2_device: 0x4004_3000,
};

fn operations(script: &Script) -> Vec<Operation> {
    script
        .effects
        .iter()
        .map(|e| match e {
            Effect::Perform(o) => *o,
            Effect::Print(_) => panic!("unexpected text"),
        })
        .collect()
}

fn write(register: SystemRegister, value: u64) -> Operation {
    Operation::WriteRegister { register, value }
}

#[test]
fn entries_hold_their_values() {
    assert_eq!(PageTableEntry::invalid(), PageTableEntry(0));
    assert!(!PageTableEntry::invalid().is_valid());
    assert_eq!(PageTableEntry::new(0xF1).0, 0xF1);
    assert!(PageTableEntry::new(0xF1).is_valid());
    assert!(!PageTableEntry::new(0xF2).is_valid());
}

#[test]
fn table_entry_refers_to_its_table() {
    let entry = PageTableEntry::new_table(0x4004_1000);
    assert_eq!(entry.0, 0x4004_1003);
    assert!(entry.is_valid());
    assert_eq!(entry.0 & 0x0000_FFFF_FFFF_F000, 0x4004_1000);
}

#[test]
fn block_entry_maps_its_block() {
    assert_eq!(PageTableEntry::new_block(0x0900_0000, ATTR_DEVICE).0, 0x0900_0405);
    assert_eq!(PageTableEntry::new_block(0x4020_0000, ATTR_NORMAL).0, 0x4020_0401);
    let inside = PageTableEntry::new_block(0x0801_0123, 7);
    assert_eq!(inside.0, 0x0800_041D);
    assert_eq!((inside.0 >> 2) & 7, 7);
}

#[test]
fn new_table_maps_nothing() {
    let table = PageTable::new();
    assert_eq!(table.entries.len(), 512);
    assert!(table.entries.iter().all(|e| !e.is_valid()));
}

#[test]
fn kernel_tables_hold_seven_entries() {
    let mut tables = PageTables::new();
    tables.test_page_table(&AT);
    assert_eq!(tables.l0.entries[0].0, 0x4004_1003);
    assert_eq!(tables.l1.entries[0].0, 0x4004_3003);
    assert_eq!(tables.l1.entries[1].0, 0x4004_2003);
    assert_eq!(tables.l2_device.entries[72].0, 0x0900_0405);
    assert_eq!(tables.l2_device.entries[64].0, 0x0800_0405);
    assert_eq!(tables.l2_ram.entries[0].0, 0x4000_0401);
    assert_eq!(tables.l2_ram.entries[1].0, 0x4020_0401);
    let valid = |t: &PageTable| t.entries.iter().filter(|e| e.is_valid()).count();
    assert_eq!(valid(&tables.l0), 1);
    assert_eq!(valid(&tables.l1), 2);
    assert_eq!(valid(&tables.l2_device), 2);
    assert_eq!(valid(&tables.l2_ram), 2);
}

#[test]
fn kernel_tables_map_each_address_to_itself() {
    let mut tables = PageTables::new();
    tables.test_page_table(&AT);
    for address in [0x0800_0000usize, 0x0801_0004, 0x0900_0000, 0x4000_0000, 0x403F_FFFF] {
        assert_eq!(address >> 39, 0);
        let table = if address >> 30 == 0 {
            &tables.l2_device
        } else {
            &tables.l2_ram
        };
        let entry = table.entries[(address >> 21) & 511].0;
        assert_eq!(entry & 3, 1);
        assert_eq!((entry & 0x0000_FFFF_FFE0_0000) as usize + address % 0x20_0000, address);
    }
    assert!(!tables.l2_ram.entries[2].is_valid());
}

#[test]
fn setting_the_tables_keeps_the_other_entries() {
    let mut tables = PageTables::new();
    tables.l1.entries[5] = PageTableEntry::new(0x77);
    tables.l2_ram.entries[0] = PageTableEntry::new(0x99);
    tables.test_page_table(&AT);
    assert_eq!(tables.l1.entries[5].0, 0x77);
    assert_eq!(tables.l2_ram.entries[0].0, 0x4000_0401);
}

#[test]
fn translation_registers_are_set_and_fenced() {
    assert_eq!(
        operations(&init_mair()),
        vec![write(SystemRegister::MairEl1, 0x04FF), Operation::InstructionBarrier]
    );
    assert_eq!(
        operations(&init_tcr()),
        vec![
            write(SystemRegister::TcrEl1, 0x2_0000_3519),
            Operation::InstructionBarrier
        ]
    );
    assert_eq!(
        operations(&init_ttbr0(0x4004_0000)),
        vec![
            write(SystemRegister::Ttbr0El1, 0x4004_0000),
            Operation::DataBarrier,
            Operation::InstructionBarrier
        ]
    );
}

#[test]
fn mmu_is_enabled_with_the_caches_off() {
    let cases = [
        (0u64, 1u64),
        (u64::MAX, u64::MAX - 0x1004),
        (0x30D0_1805, 0x30D0_0801),
    ];
    for (before, after) in cases {
        assert_eq!(
            operations(&enable_mmu(before)),
            vec![
                write(SystemRegister::SctlrEl1, after),
                Operation::Nop,
                Operation::InstructionBarrier
            ]
        );
    }
}
