//! What the kernel's operations do, told by what goes in and what comes out.
//!
//! Each law speaks of every call of an operation that returned.
use crate::boot;
use crate::boot::{BootRegisters, BootStage, BootStep, KernelImage};
use crate::boot_laws;
use crate::effect::{EffectView, Operation, Script, SystemRegister};
use crate::exception::ExceptionFrame;
use crate::gic::Gic;
use crate::memory::PageAllocator;
use crate::memory_laws;
use crate::paging;
use crate::paging::{PageTableEntry, PageTables, TableAddresses};
use crate::paging_laws;
use crate::programs;
use crate::programs::CountStep;
use crate::ram_test;
use crate::ram_test::{RamTest, RamTestStep};
use crate::ram_test_laws;
use crate::scheduler::Scheduler;
use crate::switch_laws;
use crate::syndrome;
use crate::task::{Task, TaskImage, TaskState};
use crate::text;
use crate::timer::Timer;
use crate::trap;
use crate::trap::FaultRegisters;
use crate::uart::Uart;
use vstd::prelude::*;
use vstd::string::*;

verus! {

/// The task that ends is dead, and the processor goes to the nearest task behind
/// it that waits, round the end of the table if need be. Only where none waits
/// does it go to the idle task.
pub proof fn law_exit_current(scheduler: &mut Scheduler, frame: &mut ExceptionFrame)
    requires
        old(scheduler).wf(),
        old(scheduler)@.current != 0,
        call_ensures(Scheduler::exit_current, (scheduler, frame), ()),
    ensures
        ({
            let s = old(scheduler)@;
            let after = final(scheduler)@;
            let next = after.current;
            &&& (exists|id: int| switch_laws::waits(s, id)) ==> switch_laws::is_next(s, next)
            &&& (forall|id: int| !switch_laws::waits(s, id)) ==> next == 0
            &&& after.tasks[s.current] == (Task { state: TaskState::Dead, ..s.tasks[s.current] })
            &&& after.tasks[next] == (Task { state: TaskState::Running, ..s.tasks[next] })
            &&& switch_laws::returns_into(*final(frame), s.tasks[next].context, *old(frame))
            &&& switch_laws::others_untouched(s, after)
            &&& after.started == s.started
        }),
{
    switch_laws::law_exit_outcome(old(scheduler)@, *old(frame));
}

/// A task that gives the processor up loses it to the nearest waiting task, and
/// keeps it where none waits.
pub proof fn law_yield_current(scheduler: &mut Scheduler, frame: &mut ExceptionFrame)
    requires
        old(scheduler).wf(),
        call_ensures(Scheduler::yield_current, (scheduler, frame), ()),
    ensures
        ({
            let s = old(scheduler)@;
            let after = final(scheduler)@;
            let next = after.current;
            &&& (exists|id: int| switch_laws::waits(s, id)) ==> switch_laws::is_next(s, next)
            &&& (forall|id: int| !switch_laws::waits(s, id)) ==> next == s.current
            &&& next == s.current ==> *final(frame) == *old(frame)
            &&& next != s.current ==> switch_laws::returns_into(
                *final(frame),
                s.tasks[next].context,
                *old(frame),
            ) && after.tasks[next] == (Task { state: TaskState::Running, ..s.tasks[next] })
            &&& s.current != 0 ==> switch_laws::holds(after.tasks[s.current].context, *old(frame))
                && after.tasks[s.current].state == if next == s.current {
                TaskState::Running
            } else {
                TaskState::Ready
            }
            &&& switch_laws::others_untouched(s, after)
            &&& after.started == s.started
        }),
{
    switch_laws::law_yield_outcome(old(scheduler)@, *old(frame));
}

/// A tick after the start takes the processor from the running task for the
/// nearest waiting one. Where none waits the current task goes on, and the idle
/// task runs where the current one cannot.
pub proof fn law_tick(scheduler: &mut Scheduler, frame: &mut ExceptionFrame)
    requires
        old(scheduler).wf(),
        old(scheduler)@.started,
        old(scheduler)@.tasks.len() > 0,
        call_ensures(Scheduler::tick, (scheduler, frame), ()),
    ensures
        ({
            let s = old(scheduler)@;
            let after = final(scheduler)@;
            let next = after.current;
            let left = s.tasks[s.current];
            &&& (exists|id: int| switch_laws::waits(s, id)) ==> switch_laws::is_next(s, next)
            &&& (forall|id: int| !switch_laws::waits(s, id)) ==> next == if s.current != 0 && (
            left.state == TaskState::Running || left.state == TaskState::Ready) {
                s.current
            } else {
                0
            }
            &&& after.tasks[next].state == TaskState::Running
            &&& switch_laws::returns_into(*final(frame), after.tasks[next].context, *old(frame))
            &&& s.current != 0 && left.state == TaskState::Running ==> switch_laws::holds(
                after.tasks[s.current].context,
                *old(frame),
            )
            &&& switch_laws::others_untouched(s, after)
        }),
{
    switch_laws::law_tick_outcome(old(scheduler)@, *old(frame));
}

/// The first tick starts task 1, or the idle task where there is no other.
pub proof fn law_first_tick(scheduler: &mut Scheduler, frame: &mut ExceptionFrame)
    requires
        old(scheduler).wf(),
        !old(scheduler)@.started,
        old(scheduler)@.tasks.len() > 0,
        call_ensures(Scheduler::tick, (scheduler, frame), ()),
    ensures
        ({
            let s = old(scheduler)@;
            let after = final(scheduler)@;
            &&& after.started
            &&& after.current == if s.tasks.len() > 1 {
                1int
            } else {
                0
            }
            &&& after.tasks[after.current] == (Task {
                state: TaskState::Running,
                ..s.tasks[after.current]
            })
            &&& switch_laws::returns_into(
                *final(frame),
                s.tasks[after.current].context,
                *old(frame),
            )
        }),
{
    switch_laws::law_start_outcome(old(scheduler)@, *old(frame));
}

/// The allocator gives out the unused page of the lowest address and takes it
/// into use; it fails only where every page is in use, and changes nothing else.
pub proof fn law_alloc_page(memory: &mut PageAllocator, address: Option<usize>, page: int)
    requires
        old(memory)@.wf(),
        0 <= page < 131072,
        call_ensures(PageAllocator::alloc_page, (memory,), address),
    ensures
        ({
            let m = old(memory)@;
            let after = final(memory)@;
            &&& memory_laws::same_layout(m, after)
            &&& after.used[page] == (m.used[page] || address == Some(
                (m.first_free_page + page * 4096) as usize,
            ) && 0 <= m.first_free_page + page * 4096 <= usize::MAX)
            &&& match address {
                Some(address) => {
                    &&& address % 4096 == 0
                    &&& exists|p: int|
                        0 <= p < m.page_count && !(#[trigger] m.used[p]) && address
                            == m.first_free_page + p * 4096
                    &&& page < m.page_count && !m.used[page] ==> address <= m.first_free_page
                        + page * 4096
                },
                None => page < m.page_count ==> m.used[page],
            }
        }),
{
    memory_laws::law_alloc_changes_one_page(old(memory)@, page);
    memory_laws::law_alloc_gives_the_lowest_address(old(memory)@);
}

/// Freeing takes the page at the address out of use and changes nothing else.
pub proof fn law_free_page(memory: &mut PageAllocator, address: usize, page: int)
    requires
        old(memory)@.wf(),
        old(memory)@.is_allocated(address as int),
        0 <= page < 131072,
        call_ensures(PageAllocator::free_page, (memory, address), ()),
    ensures
        memory_laws::same_layout(old(memory)@, final(memory)@),
        final(memory)@.used[page] == (old(memory)@.used[page] && address != old(
            memory,
        )@.first_free_page + page * 4096),
{
    memory_laws::law_free_changes_one_page(old(memory)@, address as int, page);
}

/// Setting the allocator up leaves the pages between the end of the kernel and
/// the end of the RAM, all unused.
pub proof fn law_init_memory(memory: &mut PageAllocator, kernel_end: usize, page: int)
    requires
        old(memory)@.used.len() == 131072,
        0 <= page < final(memory)@.page_count,
        page < 131072,
        call_ensures(PageAllocator::init_memory, (memory, kernel_end), ()),
    ensures
        ({
            let after = final(memory)@;
            &&& after.ram_end == old(memory)@.ram_end
            &&& after.kernel_end == kernel_end
            &&& after.first_free_page % 4096 == 0
            &&& kernel_end <= after.first_free_page < kernel_end + 4096
            &&& after.page_count * 4096 <= after.ram_end - after.first_free_page
                < after.page_count * 4096 + 4096
            &&& !after.used[page]
        }),
{
    memory_laws::law_init_sets_the_layout(old(memory)@, kernel_end as int, page);
}

/// A data abort of the kernel at the recoverable address and a breakpoint are
/// stepped over, whatever the specific bits say: the return address goes one
/// instruction on, and nothing else of the frame changes.
pub proof fn law_stepped_over(
    frame: &mut ExceptionFrame,
    scheduler: &mut Option<Scheduler>,
    registers: &FaultRegisters,
    script: Script,
)
    requires
        old(frame).elr + 4 <= u64::MAX,
        ((old(frame).esr >> 26) & 0x3F == 0x25 && old(frame).far == 0xDEAD_0000) || (old(
            frame,
        ).esr >> 26) & 0x3F == 0x3C,
        call_ensures(trap::exception_sync_rust, (frame, scheduler, registers), script),
    ensures
        *final(scheduler) == *old(scheduler),
        final(frame).elr == old(frame).elr + 4,
        final(frame).x == old(frame).x,
        final(frame).sp == old(frame).sp,
        final(frame).spsr == old(frame).spsr,
        final(frame).esr == old(frame).esr,
        final(frame).far == old(frame).far,
        script@.len() == 1,
        script@[0] is Print,
{
    let esr = old(frame).esr;
    assert((esr >> 26) & 0x3F == esr / 0x400_0000 % 64) by (bit_vector);
}

/// An exception of a class other than a supervisor call, a data abort of the
/// kernel or a breakpoint changes nothing and stops the machine.
pub proof fn law_fatal(
    frame: &mut ExceptionFrame,
    scheduler: &mut Option<Scheduler>,
    registers: &FaultRegisters,
    script: Script,
)
    requires
        (old(frame).esr >> 26) & 0x3F != 0x15,
        (old(frame).esr >> 26) & 0x3F != 0x25 || old(frame).far != 0xDEAD_0000,
        (old(frame).esr >> 26) & 0x3F != 0x3C,
        call_ensures(trap::exception_sync_rust, (frame, scheduler, registers), script),
    ensures
        *final(scheduler) == *old(scheduler),
        *final(frame) == *old(frame),
        script@.len() == 2,
        script@[1] == EffectView::Perform(Operation::WaitForever),
{
    let esr = old(frame).esr;
    assert((esr >> 26) & 0x3F == esr / 0x400_0000 % 64) by (bit_vector);
}

/// The timer interrupt, number 30, counts one tick and arms the timer with a
/// tenth of its frequency; any other interrupt changes nothing.
pub proof fn law_interrupt(
    frame: &mut ExceptionFrame,
    interrupt_id: u32,
    ticks: &mut u64,
    frequency: u64,
    scheduler: &mut Option<Scheduler>,
    write: Option<Operation>,
)
    requires
        call_ensures(
            trap::exception_irq_rust,
            (frame, interrupt_id, ticks, frequency, scheduler),
            write,
        ),
    ensures
        interrupt_id == 30 ==> *final(ticks) == *old(ticks) + 1,
        interrupt_id == 30 ==> match write {
            Some(Operation::WriteRegister { register, value }) => register
                == SystemRegister::CntpTvalEl0 && value * 10 <= frequency < value * 10 + 10,
            _ => false,
        },
        interrupt_id == 30 && *old(scheduler) is None ==> *final(frame) == *old(frame),
        interrupt_id != 30 ==> write is None && *final(ticks) == *old(ticks) && *final(frame)
            == *old(frame) && *final(scheduler) == *old(scheduler),
{
}

/// The root register gets the very address that was given.
pub proof fn law_init_ttbr0(l0: u64, script: Script)
    requires
        call_ensures(paging::init_ttbr0, (l0,), script),
    ensures
        script@.len() == 3,
        script@[0] == EffectView::Perform(
            Operation::WriteRegister { register: SystemRegister::Ttbr0El1, value: l0 },
        ),
        script@[1] == EffectView::Perform(Operation::DataBarrier),
        script@[2] == EffectView::Perform(Operation::InstructionBarrier),
{
    paging_laws::law_root_register_gets_the_table(l0);
}

/// Two root tables at different addresses are never set alike.
pub proof fn law_init_ttbr0_tells_tables_apart(a: u64, b: u64, first: Script, second: Script)
    requires
        call_ensures(paging::init_ttbr0, (a,), first),
        call_ensures(paging::init_ttbr0, (b,), second),
        first@ == second@,
    ensures
        a == b,
{
    law_init_ttbr0(a, first);
    law_init_ttbr0(b, second);
}

/// Turning translation on sets bit 0 of the system control register, clears bits
/// 2 and 12, and keeps the others.
pub proof fn law_enable_mmu(sctlr: u64, script: Script, bit: u64)
    requires
        bit < 64,
        call_ensures(paging::enable_mmu, (sctlr,), script),
    ensures
        script@.len() == 3,
        match script@[0] {
            EffectView::Perform(Operation::WriteRegister { register, value }) => register
                == SystemRegister::SctlrEl1 && (value >> bit) & 1 == if bit == 0 {
                1
            } else if bit == 2 || bit == 12 {
                0
            } else {
                (sctlr >> bit) & 1
            },
            _ => false,
        },
        script@[1] == EffectView::Perform(Operation::Nop),
        script@[2] == EffectView::Perform(Operation::InstructionBarrier),
{
    paging_laws::law_enabling_mmu_writes_once(sctlr, bit);
}

/// A table entry leads to its table, and a block entry maps its block.
pub proof fn law_new_entries(
    table: u64,
    address: usize,
    attr_index: u64,
    to_table: PageTableEntry,
    to_block: PageTableEntry,
    bit: u64,
)
    requires
        bit < 64,
        call_ensures(PageTableEntry::new_table, (table,), to_table),
        call_ensures(PageTableEntry::new_block, (address, attr_index), to_block),
    ensures
        (to_table.0 >> bit) & 1 == if bit < 2 {
            1
        } else {
            (table >> bit) & 1
        },
        ((to_block.0 >> bit) & 1 == 1) == (bit == 0 || bit == 10 || (21 <= bit < 48 && (
        address as u64 >> bit) & 1 == 1) || (bit >= 2 && (attr_index >> ((bit - 2) as u64)) & 1
            == 1)),
{
    paging_laws::law_table_entry_bits(table, bit);
    paging_laws::law_block_entry_bits(address as u64, attr_index, bit);
}

/// Setting the tables up writes seven entries and keeps every other.
pub proof fn law_test_page_table(tables: &mut PageTables, at: &TableAddresses, i: int)
    requires
        0 <= i < 512,
        call_ensures(PageTables::test_page_table, (tables, at), ()),
    ensures
        final(tables).l0@[i].0 == if i == 0 {
            at.l1 | 0b11
        } else {
            old(tables).l0@[i].0
        },
        final(tables).l1@[i].0 == if i == 0 {
            at.l2_device | 0b11
        } else if i == 1 {
            at.l2_ram | 0b11
        } else {
            old(tables).l1@[i].0
        },
        final(tables).l2_device@[i].0 == if i == 64 {
            0x0800_0405
        } else if i == 72 {
            0x0900_0405
        } else {
            old(tables).l2_device@[i].0
        },
        final(tables).l2_ram@[i].0 == if i == 0 {
            0x4000_0401
        } else if i == 1 {
            0x4020_0401
        } else {
            old(tables).l2_ram@[i].0
        },
{
    paging_laws::law_setup_writes_seven_entries(*old(tables), *final(tables), *at, i);
}

/// Every byte of the text's UTF-8 form goes to the data register, unchanged and
/// in order, and nothing else does.
pub proof fn law_write_bytes(uart: &Uart, s: &str, stores: Vec<Operation>, i: int)
    requires
        call_ensures(Uart::write_bytes, (uart, s), stores),
        0 <= i < stores@.len(),
    ensures
        stores@.len() == vstd::utf8::encode_utf8(s@).len(),
        stores@[i] == (Operation::Store8 {
            address: uart.base,
            value: vstd::utf8::encode_utf8(s@)[i],
        }),
{
}

/// Two texts that are written alike to one data register are the same text.
pub proof fn law_write_bytes_tells_texts_apart(
    uart: &Uart,
    s: &str,
    t: &str,
    first: Vec<Operation>,
    second: Vec<Operation>,
)
    requires
        call_ensures(Uart::write_bytes, (uart, s), first),
        call_ensures(Uart::write_bytes, (uart, t), second),
        first@ == second@,
    ensures
        s@ == t@,
{
    let sent = vstd::utf8::encode_utf8(s@);
    let again = vstd::utf8::encode_utf8(t@);
    assert forall|i: int| 0 <= i < sent.len() implies sent[i] == again[i] by {
        law_write_bytes(uart, s, first, i);
        law_write_bytes(uart, t, second, i);
    }
    assert(sent =~= again);
    vstd::utf8::encode_utf8_decode_utf8(s@);
    vstd::utf8::encode_utf8_decode_utf8(t@);
}

/// The controller's registers lie at their offsets behind the two blocks.
pub proof fn law_gic_stores(
    gic: &Gic,
    offset: usize,
    value: u32,
    to_dist: Operation,
    to_cpu: Operation,
)
    requires
        gic.dist + offset <= usize::MAX,
        gic.cpu + offset <= usize::MAX,
        call_ensures(Gic::write_dist, (gic, offset, value), to_dist),
        call_ensures(Gic::write_cpu, (gic, offset, value), to_cpu),
    ensures
        to_dist == (Operation::Store32 { address: (gic.dist + offset) as usize, value }),
        to_cpu == (Operation::Store32 { address: (gic.cpu + offset) as usize, value }),
{
}

/// The timer fires after the counts that were asked for, and its period is a
/// tenth of a second.
pub proof fn law_timer(frequency: u64, ticks: u64, count: u64, write: Operation)
    requires
        call_ensures(Timer::period, (frequency,), ticks),
        call_ensures(Timer::set_timeout, (count,), write),
    ensures
        ticks * 10 <= frequency < ticks * 10 + 10,
        write == (Operation::WriteRegister {
            register: SystemRegister::CntpTvalEl0,
            value: count,
        }),
{
}

/// The counting tasks go up by one, show the number under their own label, and
/// end at 100 and at 2000.
pub proof fn law_counting_tasks(value: u64, a: CountStep, b: CountStep)
    requires
        call_ensures(programs::task_a, (value,), a),
        call_ensures(programs::task_b, (value,), b),
    ensures
        a.value == (value + 1) % 0x1_0000_0000_0000_0000,
        b.value == a.value,
        a.script@[0] == EffectView::Perform(Operation::Spin { rounds: 500_000 }),
        b.script@[0] == a.script@[0],
        a.script@[1] == EffectView::Print(
            "A value = "@ + text::hexadecimal(a.value as nat, 0) + seq!['\n'],
        ),
        b.script@[1] == EffectView::Print(
            "B value = "@ + text::hexadecimal(b.value as nat, 0) + seq!['\n'],
        ),
        a.script@.len() == 4 <==> value == 99,
        b.script@.len() == 4 <==> value == 1999,
        value != 99 ==> a.script@.len() == 2,
        value != 1999 ==> b.script@.len() == 2,
        value == 99 ==> a.script@[2] == EffectView::Perform(
            Operation::SupervisorCall { number: 1 },
        ),
        value == 1999 ==> b.script@[2] == EffectView::Perform(
            Operation::SupervisorCall { number: 1 },
        ),
{
    programs::law_counting_step("A value = "@, a.value, 100);
    programs::law_counting_step("B value = "@, b.value, 2000);
}

/// A task runs exactly its entry function, ends by the call that ends a task,
/// and has no way behind that.
pub proof fn law_trampoline(entry: u64, operations: [Operation; 3])
    requires
        call_ensures(programs::task_trampoline, (entry,), operations),
    ensures
        operations@[0] == (Operation::Call { address: entry }),
        operations@[1] == (Operation::SupervisorCall { number: 1 }),
        operations@[2] == Operation::SpinForever,
{
}

/// A byte that is not the first pattern, whichever it is, is reported as a
/// failure with its place and value; the pattern is never reported so.
pub proof fn law_ram_test_judges_every_byte(
    page: usize,
    index: usize,
    byte: u8,
    memory: &mut PageAllocator,
    tables: &PageTables,
    step: RamTestStep,
)
    requires
        index < 4096,
        page + index + 1 <= usize::MAX,
        call_ensures(
            ram_test::task_c,
            (RamTest::FirstPattern { page, index }, byte, memory, tables),
            step,
        ),
    ensures
        byte != 0xAA ==> step.script@[0] == EffectView::Print(
            "FAIL: byte "@ + text::decimal(index as nat) + " = "@ + text::hexadecimal(
                byte as nat,
                0,
            ) + "\n"@,
        ),
        byte == 0xAA && index == 4095 ==> step.script@[0] == EffectView::Print(
            "PASS: entire page read back correctly"@ + "\n"@,
        ),
        byte == 0xAA && index < 4095 ==> step.script@ == seq![
            EffectView::Perform(Operation::ReadByte { address: (page + index + 1) as usize }),
        ],
        final(memory)@ == old(memory)@,
{
    ram_test_laws::law_first_pattern_stage(page, index, byte, old(memory)@, *tables);
}

/// The second pattern is judged as the first, and the page is freed with the
/// verdict and not before.
pub proof fn law_ram_test_judges_every_byte_again(
    page: usize,
    index: usize,
    byte: u8,
    memory: &mut PageAllocator,
    tables: &PageTables,
    step: RamTestStep,
)
    requires
        index < 4096,
        page + index + 1 <= usize::MAX,
        call_ensures(
            ram_test::task_c,
            (RamTest::SecondPattern { page, index }, byte, memory, tables),
            step,
        ),
    ensures
        byte != 0x55 ==> step.script@[0] == EffectView::Print(
            ram_test::with_closing(
                "FAIL: byte "@ + text::decimal(index as nat) + " = "@ + text::hexadecimal(
                    byte as nat,
                    0,
                ) + "\n"@ + "Test page freed"@ + "\n"@,
                *tables,
            ),
        ),
        byte == 0x55 && index == 4095 ==> step.script@[0] == EffectView::Print(
            ram_test::with_closing(
                "PASS: second RAM pattern"@ + "\n"@ + "Test page freed"@ + "\n"@,
                *tables,
            ),
        ),
        byte == 0x55 && index < 4095 ==> step.script@ == seq![
            EffectView::Perform(Operation::ReadByte { address: (page + index + 1) as usize }),
        ] && final(memory)@ == old(memory)@,
        byte != 0x55 || index == 4095 ==> final(memory)@ == old(memory)@.after_free(page as int),
{
    ram_test_laws::law_second_pattern_stage(page, index, byte, old(memory)@, *tables);
}

/// The name of a syndrome is that of its bits 31 to 26, and the parts of it are
/// its own bits.
pub proof fn law_syndrome_is_taken_apart(
    esr: u64,
    name: &'static str,
    ec: u64,
    il: u64,
    iss: u64,
)
    requires
        call_ensures(syndrome::decode_esr, (esr,), name),
        call_ensures(syndrome::exception_class, (esr,), ec),
        call_ensures(syndrome::instruction_length, (esr,), il),
        call_ensures(syndrome::specific_syndrome, (esr,), iss),
    ensures
        ec == (esr >> 26) & 0x3F,
        il == (esr >> 25) & 1,
        iss == esr & 0x1FF_FFFF,
        name@ == syndrome::cause(ec),
{
    assert((esr >> 26) & 0x3F == esr / 0x400_0000 % 64 && (esr >> 25) & 1 == esr / 0x200_0000 % 2
        && esr & 0x1FF_FFFF == esr % 0x200_0000) by (bit_vector);
}

/// A number that is put in a text reads back from it as that number.
pub proof fn law_numbers_read_back(out: &mut String, label: &str, v: u64, width: usize)
    requires
        call_ensures(text::put_hex_line, (out, label, v, width), ()),
    ensures
        exists|digits: Seq<char>|
            {
                &&& final(out)@ == old(out)@ + label@ + seq!['0', 'x'] + digits + seq!['\n']
                &&& #[trigger] crate::text_laws::number_of(digits, 16) == v
                &&& digits.len() + 2 >= width
            },
{
    let t = text::hexadecimal(v as nat, width as nat);
    let digits = t.skip(2);
    crate::text_laws::law_hexadecimal_reads_back(v as nat, width as nat);
    crate::text_laws::law_labelled_line_holds_its_parts(
        old(out)@,
        label@,
        Seq::empty(),
        v as nat,
        width as nat,
    );
    assert(final(out)@ =~= old(out)@ + label@ + seq!['0', 'x'] + digits + seq!['\n']);
    assert(crate::text_laws::number_of(digits, 16) == v);
}

/// The supervisor calls of a task reach the scheduler and print nothing: number
/// 1 ends the task, and number 2 gives the processor up.
pub proof fn law_supervisor_call(
    frame: &mut ExceptionFrame,
    scheduler: &mut Option<Scheduler>,
    registers: &FaultRegisters,
    script: Script,
)
    requires
        *old(scheduler) is Some,
        (*old(scheduler))->0.wf(),
        (*old(scheduler))->0@.current != 0,
        (old(frame).esr >> 26) & 0x3F == 0x15,
        old(frame).esr & 0x1FF_FFFF == 1 || old(frame).esr & 0x1FF_FFFF == 2,
        call_ensures(trap::exception_sync_rust, (frame, scheduler, registers), script),
    ensures
        script@.len() == 0,
        *final(scheduler) is Some,
        ({
            let s = (*old(scheduler))->0@;
            let after = (*final(scheduler))->0@;
            let next = after.current;
            &&& (exists|id: int| switch_laws::waits(s, id)) ==> switch_laws::is_next(s, next)
            &&& (forall|id: int| !switch_laws::waits(s, id)) ==> next == if old(frame).esr
                & 0x1FF_FFFF == 1 {
                0
            } else {
                s.current
            }
            &&& old(frame).esr & 0x1FF_FFFF == 1 ==> after.tasks[s.current].state
                == TaskState::Dead
            &&& old(frame).esr & 0x1FF_FFFF == 2 ==> after.tasks[s.current].state
                != TaskState::Dead
            &&& next != s.current ==> switch_laws::returns_into(
                *final(frame),
                s.tasks[next].context,
                *old(frame),
            )
        }),
{
    let esr = old(frame).esr;
    assert((esr >> 26) & 0x3F == esr / 0x400_0000 % 64 && esr & 0x1FF_FFFF == esr % 0x200_0000)
        by (bit_vector);
    switch_laws::law_exit_outcome((*old(scheduler))->0@, *old(frame));
    switch_laws::law_yield_outcome((*old(scheduler))->0@, *old(frame));
}

/// A new task gets the next id and starts fresh, and the tasks before it stay.
pub proof fn law_add_task(
    scheduler: &mut Scheduler,
    entry: u64,
    image: &TaskImage,
    id: usize,
    other: int,
)
    requires
        call_ensures(Scheduler::add_task, (scheduler, entry, image), id),
    ensures
        id == old(scheduler)@.tasks.len(),
        final(scheduler)@.tasks.len() == id + 1,
        0 <= other < id ==> final(scheduler)@.tasks[other] == old(scheduler)@.tasks[other],
        final(scheduler)@.tasks[id as int].id == id,
        final(scheduler)@.tasks[id as int].state == TaskState::Ready,
        final(scheduler)@.tasks[id as int].context.x@[0] == entry,
        final(scheduler)@.tasks[id as int].context.pc == image.trampoline,
        final(scheduler)@.tasks[id as int].context.sp == image.initial_sp(id as int),
        final(scheduler)@.current == old(scheduler)@.current,
        final(scheduler)@.started == old(scheduler)@.started,
{
    if 0 <= other < id {
        assert(final(scheduler)@.tasks.drop_last()[other] == final(scheduler)@.tasks[other]);
    }
}

/// The search finds a waiting task, the nearest, wherever there is one.
pub proof fn law_next_ready(scheduler: &Scheduler, next: Option<usize>)
    requires
        scheduler.wf(),
        call_ensures(Scheduler::next_ready, (scheduler,), next),
    ensures
        match next {
            Some(id) => switch_laws::is_next(scheduler@, id as int),
            None => forall|id: int| !switch_laws::waits(scheduler@, id),
        },
{
    switch_laws::law_search_finds_the_nearest(scheduler@);
}

/// What is saved of a frame is what is loaded back into one.
pub proof fn law_context_round_trip(
    task: &mut Task,
    frame: &ExceptionFrame,
    saved: &Task,
    target: &mut ExceptionFrame,
)
    requires
        call_ensures(Task::save_context, (task, frame), ()),
        *saved == *final(task),
        call_ensures(Task::load_context, (saved, target), ()),
    ensures
        final(target).x@ == frame.x@,
        final(target).sp == frame.sp,
        final(target).elr == frame.elr,
        final(target).spsr == frame.spsr,
        final(target).esr == old(target).esr,
        final(target).far == old(target).far,
        final(task).id == old(task).id,
        final(task).state == old(task).state,
{
}

/// A page that is marked used is seen so, and no other page changes.
pub proof fn law_mark_page_used(
    memory: &mut PageAllocator,
    marked: &PageAllocator,
    page: usize,
    other: int,
    seen: bool,
)
    requires
        old(memory)@.wf(),
        page < old(memory)@.page_count,
        0 <= other < 131072,
        call_ensures(PageAllocator::mark_page_used, (memory, page), ()),
        *marked == *final(memory),
        call_ensures(PageAllocator::is_page_used, (marked, page), seen),
    ensures
        seen,
        other != page ==> marked@.used[other] == old(memory)@.used[other],
        memory_laws::same_layout(old(memory)@, marked@),
{
    memory_laws::law_marking_changes_one_page(old(memory)@, page as int, true, other);
}

/// A page that is marked free is seen so, and no other page changes.
pub proof fn law_mark_page_free(
    memory: &mut PageAllocator,
    marked: &PageAllocator,
    page: usize,
    other: int,
    seen: bool,
)
    requires
        old(memory)@.wf(),
        page < old(memory)@.page_count,
        0 <= other < 131072,
        call_ensures(PageAllocator::mark_page_free, (memory, page), ()),
        *marked == *final(memory),
        call_ensures(PageAllocator::is_page_used, (marked, page), seen),
    ensures
        !seen,
        other != page ==> marked@.used[other] == old(memory)@.used[other],
        memory_laws::same_layout(old(memory)@, marked@),
{
    memory_laws::law_marking_changes_one_page(old(memory)@, page as int, false, other);
}

/// An entry is valid by its lowest bit alone, and a fresh one is not.
pub proof fn law_entries_are_valid_by_one_bit(
    entry: &PageTableEntry,
    valid: bool,
    value: u64,
    made: PageTableEntry,
    nothing: PageTableEntry,
)
    requires
        call_ensures(PageTableEntry::is_valid, (entry,), valid),
        call_ensures(PageTableEntry::new, (value,), made),
        call_ensures(PageTableEntry::invalid, (), nothing),
    ensures
        valid == (entry.0 & 1 == 1),
        made.0 == value,
        nothing.0 == 0,
{
    let bits = entry.0;
    assert((bits & 1 == 1) == (bits % 2 == 1)) by (bit_vector);
}

/// What is added to a script comes behind what it holds, in order and unchanged.
pub proof fn law_scripts_grow_at_the_end(
    script: &mut Script,
    operation: Operation,
    longer: &mut Script,
    other: Script,
    i: int,
)
    requires
        call_ensures(Script::perform, (script, operation), ()),
        call_ensures(Script::append, (longer, other), ()),
    ensures
        final(script)@.len() == old(script)@.len() + 1,
        final(script)@.last() == EffectView::Perform(operation),
        0 <= i < old(script)@.len() ==> final(script)@[i] == old(script)@[i],
        final(longer)@.len() == old(longer)@.len() + other@.len(),
        0 <= i < old(longer)@.len() ==> final(longer)@[i] == old(longer)@[i],
        0 <= i < other@.len() ==> final(longer)@[old(longer)@.len() + i] == other@[i],
{
}

/// A text that is added to a script is printed unchanged, and a line with a line
/// feed behind it; a register is written with the value given.
pub proof fn law_scripts_keep_what_is_added(
    script: &mut Script,
    text: String,
    lines: &mut Script,
    line: &str,
    writes: &mut Script,
    register: SystemRegister,
    value: u64,
)
    requires
        call_ensures(Script::print, (script, text), ()),
        call_ensures(Script::print_line, (lines, line), ()),
        call_ensures(Script::write_register, (writes, register, value), ()),
    ensures
        final(script)@.len() == old(script)@.len() + 1,
        final(script)@.last() == EffectView::Print(text@),
        final(lines)@.len() == old(lines)@.len() + 1,
        final(lines)@.last() == EffectView::Print(line@ + seq!['\n']),
        final(writes)@.len() == old(writes)@.len() + 1,
        final(writes)@.last() == EffectView::Perform(
            Operation::WriteRegister { register, value },
        ),
{
    reveal_strlit("\n");
    assert("\n"@ =~= seq!['\n']);
}

/// A byte that is sent goes to the data register of its UART, unchanged.
pub proof fn law_put_byte(base: usize, uart: Uart, sender: &Uart, byte: u8, store: Operation)
    requires
        call_ensures(Uart::new, (base,), uart),
        *sender == uart,
        call_ensures(Uart::put_byte, (sender, byte), store),
    ensures
        store == (Operation::Store8 { address: base, value: byte }),
{
}

/// The start sets the allocator and the tables up in its second stage, and the
/// scheduler in its fourth, with the idle task and the RAM test; no other stage
/// changes any of them.
pub proof fn law_rust_start(
    stage: BootStage,
    registers: &BootRegisters,
    image: &KernelImage,
    memory: &mut PageAllocator,
    tables: &mut PageTables,
    scheduler: &mut Option<Scheduler>,
    step: BootStep,
)
    requires
        call_ensures(
            boot::rust_start,
            (stage, registers, image, memory, tables, scheduler),
            step,
        ),
    ensures
        stage != BootStage::Vectored ==> *final(memory) == *old(memory) && *final(tables) == *old(
            tables,
        ),
        stage != BootStage::Reported ==> *final(scheduler) == *old(scheduler),
        stage == BootStage::Vectored ==> {
            &&& final(memory)@.kernel_end == image.kernel_end
            &&& final(memory)@.ram_end == old(memory)@.ram_end
            &&& final(tables).l0@[0].0 == image.tables.l1 | 0b11
            &&& final(tables).l1@[0].0 == image.tables.l2_device | 0b11
            &&& final(tables).l1@[1].0 == image.tables.l2_ram | 0b11
            &&& step.next == BootStage::Configured
        },
        stage == BootStage::Reported ==> {
            &&& *final(scheduler) is Some
            &&& (*final(scheduler))->0@.tasks.len() == 2
            &&& (*final(scheduler))->0@.tasks[0].context.x@[0] == image.idle_task
            &&& (*final(scheduler))->0@.tasks[1].context.x@[0] == image.task_c
            &&& (*final(scheduler))->0@.current == 0
            &&& !(*final(scheduler))->0@.started
            &&& step.next == BootStage::Translating
        },
        stage == BootStage::Reset ==> {
            &&& step.script@[6] == EffectView::Perform(
                Operation::WriteRegister {
                    register: SystemRegister::VbarEl1,
                    value: image.exception_vector as u64,
                },
            )
            &&& step.next == BootStage::Vectored
        },
        stage == BootStage::Configured ==> step.next == BootStage::Reported,
        stage == BootStage::Translating ==> step.next == BootStage::Running,
        stage == BootStage::Running ==> step.next == BootStage::Running && step.script@ == seq![
            EffectView::Perform(Operation::WaitForever),
        ],
{
    boot_laws::law_core_writes(registers.cpacr, image.exception_vector as u64, 0, 0, 0);
    if stage == BootStage::Vectored {
        paging_laws::law_setup_writes_seven_entries(
            *old(tables),
            *final(tables),
            image.tables,
            0,
        );
        paging_laws::law_setup_writes_seven_entries(
            *old(tables),
            *final(tables),
            image.tables,
            1,
        );
    }
}

} // verus!
