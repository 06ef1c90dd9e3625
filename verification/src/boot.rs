//! The start of the kernel.
//!
//! The start goes in stages, because it shows registers as the machine holds
//! them: each stage gets what the machine reads before it, and gives a script.
use crate::effect::{EffectView, Operation, Script, SystemRegister};
use crate::gic::Gic;
use crate::memory;
use crate::memory::{PageAllocator, MAX_PAGE_COUNT, PAGE_SIZE};
use crate::paging;
use crate::paging::{
    PageTableEntry, PageTables, TableAddresses, ATTR_DEVICE, ATTR_NORMAL, MAIR, TCR,
};
use crate::scheduler::Scheduler;
use crate::task::TaskImage;
use crate::text;
use crate::timer::Timer;
use vstd::prelude::*;
use vstd::string::*;

verus! {

/// The bits of `CPACR_EL1` that let the kernel use floating point and SIMD.
pub const CPACR_FPEN: u64 = 0x30_0000;

/// Where the linker put the parts of the kernel.
#[derive(Clone, Copy)]
pub struct KernelImage {
    pub rust_start: usize,
    pub exception_vector: usize,
    pub kernel_start: usize,
    pub kernel_end: usize,
    pub stack: usize,
    pub scheduler: usize,
    pub tables: TableAddresses,
    pub tasks: TaskImage,
    pub idle_task: u64,
    pub task_c: u64,
}

/// The registers that the start reads.
#[derive(Clone, Copy)]
pub struct BootRegisters {
    pub cpacr: u64,
    pub tcr: u64,
    pub ttbr0: u64,
    pub mair: u64,
    pub sctlr: u64,
    pub frequency: u64,
}

/// How far the start has come.
#[derive(Clone, Copy, PartialEq, Eq, Structural, Debug)]
pub enum BootStage {
    /// The core has just begun.
    Reset,
    /// Floating point is on and the exception vector is set.
    Vectored,
    /// The tables and the translation registers are set.
    Configured,
    /// What was set is reported.
    Reported,
    /// Translation is on, and the scheduler and the interrupt controller are
    /// set up.
    Translating,
    /// The timer runs and interrupts are taken.
    Running,
}

/// The printing of one line.
pub open spec fn line(text: Seq<char>) -> EffectView {
    EffectView::Print(text + "\n"@)
}

/// The printing of a line of `label` and `v` as 16 hexadecimal digits.
pub open spec fn hex_line(label: Seq<char>, v: u64) -> EffectView {
    EffectView::Print(text::with_hex_line(Seq::empty(), label, v as nat, 18))
}

/// Adds the printing of a line of `label` and `v`.
fn print_hex_line(script: &mut Script, label: &str, v: u64)
    ensures
        final(script)@ == old(script)@.push(hex_line(label@, v)),
{
    let mut out: String = String::new();
    text::put_hex_line(&mut out, label, v, 18);
    script.print(out);
}

/// Turns floating point on and sets the exception vector.
pub open spec fn core_effects(cpacr: u64, vector: u64) -> Seq<EffectView> {
    seq![
        line("Starting..."@),
        line("Enabling FP/SIMD..."@),
        EffectView::Perform(
            Operation::WriteRegister {
                register: SystemRegister::CpacrEl1,
                value: cpacr | CPACR_FPEN,
            },
        ),
        EffectView::Perform(Operation::InstructionBarrier),
        line("Enabled FP/SIMD!"@),
        line("Installing exception vector...."@),
        EffectView::Perform(
            Operation::WriteRegister { register: SystemRegister::VbarEl1, value: vector },
        ),
        EffectView::Perform(Operation::InstructionBarrier),
        line("Vector installed!"@),
        line("Initialising memory allocator"@),
    ]
}

/// The script that turns floating point on and sets the exception vector.
fn core_script(cpacr: u64, vector: u64) -> (script: Script)
    ensures
        script@ == core_effects(cpacr, vector),
{
    let mut script: Script = Script::new();
    script.print_line("Starting...");
    script.print_line("Enabling FP/SIMD...");
    script.write_register(SystemRegister::CpacrEl1, cpacr | CPACR_FPEN);
    script.perform(Operation::InstructionBarrier);
    script.print_line("Enabled FP/SIMD!");
    script.print_line("Installing exception vector....");
    script.write_register(SystemRegister::VbarEl1, vector);
    script.perform(Operation::InstructionBarrier);
    script.print_line("Vector installed!");
    script.print_line("Initialising memory allocator");
    script
}

/// Reports the memory allocator and the blocks that the tables map.
pub open spec fn table_effects() -> Seq<EffectView> {
    seq![
        line("Memory allocator initialised!"@),
        line("Initialising MMU..."@),
        hex_line("L2 RAM[0] = "@, PageTableEntry::block(0x4000_0000, ATTR_NORMAL).0),
        hex_line("L2 RAM[1] = "@, PageTableEntry::block(0x4020_0000, ATTR_NORMAL).0),
        hex_line("L2 DEVICE[64] = "@, PageTableEntry::block(0x0800_0000, ATTR_DEVICE).0),
        hex_line("L2 DEVICE[72] = "@, PageTableEntry::block(0x0900_0000, ATTR_DEVICE).0),
        line("Page tables configured!"@),
    ]
}

/// The script that reports the memory allocator and the tables.
fn table_script(tables: &PageTables) -> (script: Script)
    requires
        tables.l2_ram@[0] == PageTableEntry::block(0x4000_0000, ATTR_NORMAL),
        tables.l2_ram@[1] == PageTableEntry::block(0x4020_0000, ATTR_NORMAL),
        tables.l2_device@[64] == PageTableEntry::block(0x0800_0000, ATTR_DEVICE),
        tables.l2_device@[72] == PageTableEntry::block(0x0900_0000, ATTR_DEVICE),
    ensures
        script@ == table_effects(),
{
    let mut script: Script = Script::new();
    script.print_line("Memory allocator initialised!");
    script.print_line("Initialising MMU...");
    print_hex_line(&mut script, "L2 RAM[0] = ", tables.l2_ram.entries[0].0);
    print_hex_line(&mut script, "L2 RAM[1] = ", tables.l2_ram.entries[1].0);
    print_hex_line(&mut script, "L2 DEVICE[64] = ", tables.l2_device.entries[64].0);
    print_hex_line(&mut script, "L2 DEVICE[72] = ", tables.l2_device.entries[72].0);
    script.print_line("Page tables configured!");
    script
}

/// Sets the translation registers.
pub open spec fn translation_effects(l0: u64) -> Seq<EffectView> {
    paging::register_set(SystemRegister::MairEl1, MAIR) + seq![line("MAIR configured!"@)]
        + paging::register_set(SystemRegister::TcrEl1, TCR) + seq![line("TCR configured!"@)]
        + paging::root_set(l0) + seq![line("TTBR0 configured!"@)]
}

/// The script that sets the translation registers.
fn translation_script(l0: u64) -> (script: Script)
    ensures
        script@ == translation_effects(l0),
{
    let mut script: Script = paging::init_mair();
    script.print_line("MAIR configured!");
    script.append(paging::init_tcr());
    script.print_line("TCR configured!");
    script.append(paging::init_ttbr0(l0));
    script.print_line("TTBR0 configured!");
    assert(script@ =~= translation_effects(l0));
    script
}

/// Reports the translation registers and where the kernel lies.
pub open spec fn report_effects(registers: BootRegisters, image: KernelImage) -> Seq<EffectView> {
    seq![
        hex_line("TCR  = "@, registers.tcr),
        hex_line("TTBR0 = "@, registers.ttbr0),
        hex_line("MAIR = "@, registers.mair),
        hex_line("SCTLR = "@, registers.sctlr),
        hex_line("rust_start = "@, image.rust_start as u64),
        hex_line("exception_vector = "@, image.exception_vector as u64),
        hex_line("_kernel_start = "@, image.kernel_start as u64),
        hex_line("_kernel_end = "@, image.kernel_end as u64),
        hex_line("STACK = "@, image.stack as u64),
        hex_line("PAGE_TABLE_L0 = "@, image.tables.l0),
        hex_line("SCHEDULER = "@, image.scheduler as u64),
        line("Enabling MMU..."@),
    ]
}

/// The script that reports the translation registers and where the kernel lies.
fn report_script(registers: &BootRegisters, image: &KernelImage) -> (script: Script)
    ensures
        script@ == report_effects(*registers, *image),
{
    let mut script: Script = Script::new();
    print_hex_line(&mut script, "TCR  = ", registers.tcr);
    print_hex_line(&mut script, "TTBR0 = ", registers.ttbr0);
    print_hex_line(&mut script, "MAIR = ", registers.mair);
    print_hex_line(&mut script, "SCTLR = ", registers.sctlr);
    print_hex_line(&mut script, "rust_start = ", image.rust_start as u64);
    print_hex_line(&mut script, "exception_vector = ", image.exception_vector as u64);
    print_hex_line(&mut script, "_kernel_start = ", image.kernel_start as u64);
    print_hex_line(&mut script, "_kernel_end = ", image.kernel_end as u64);
    print_hex_line(&mut script, "STACK = ", image.stack as u64);
    print_hex_line(&mut script, "PAGE_TABLE_L0 = ", image.tables.l0);
    print_hex_line(&mut script, "SCHEDULER = ", image.scheduler as u64);
    script.print_line("Enabling MMU...");
    script
}

/// The board's interrupt controller.
pub open spec fn board_gic() -> Gic {
    Gic { dist: 0x0800_0000, cpu: 0x0801_0000 }
}

/// Turns translation on and enables the interrupt controller.
pub open spec fn mmu_effects(sctlr: u64) -> Seq<EffectView> {
    paging::mmu_enabled(sctlr) + seq![
        line("MMU enabled!"@),
        line("Initialising scheduler..."@),
        line("Scheduler initialised!"@),
        line("Enabling GIC..."@),
    ] + board_gic().enabling() + seq![
        line("GIC enabled! Returned to main!"@),
        line("Reading timer..."@),
    ]
}

/// The script that turns translation on and enables the interrupt controller.
fn mmu_script(sctlr: u64) -> (script: Script)
    ensures
        script@ == mmu_effects(sctlr),
{
    let mut script: Script = paging::enable_mmu(sctlr);
    script.print_line("MMU enabled!");
    script.print_line("Initialising scheduler...");
    script.print_line("Scheduler initialised!");
    script.print_line("Enabling GIC...");
    let gic: Gic = Gic::new();
    script.append(gic.enable());
    script.print_line("GIC enabled! Returned to main!");
    script.print_line("Reading timer...");
    assert(script@ =~= mmu_effects(sctlr));
    script
}

/// Arms the timer, lets interrupts in, and waits for the first of them.
pub open spec fn timer_effects(frequency: u64) -> Seq<EffectView> {
    seq![
        line("Arming timer..."@),
        EffectView::Perform(
            Operation::WriteRegister {
                register: SystemRegister::CntpTvalEl0,
                value: frequency / 10,
            },
        ),
    ] + Timer::enabling() + seq![
        line("Timer armed!"@),
        line("Enabling CPU IRQs and passing to scheduler..."@),
        EffectView::Perform(Operation::UnmaskInterrupts),
        line("CPU IRQs enabled!"@),
        line("Scheduler has crashed! Loading to wfe"@),
        EffectView::Perform(Operation::WaitForever),
    ]
}

/// The script that arms the timer and lets interrupts in.
fn timer_script(frequency: u64) -> (script: Script)
    ensures
        script@ == timer_effects(frequency),
{
    let mut script: Script = Script::new();
    script.print_line("Arming timer...");
    script.perform(Timer::set_timeout(Timer::period(frequency)));
    script.append(Timer::enable());
    script.print_line("Timer armed!");
    script.print_line("Enabling CPU IRQs and passing to scheduler...");
    script.perform(Operation::UnmaskInterrupts);
    script.print_line("CPU IRQs enabled!");
    script.print_line("Scheduler has crashed! Loading to wfe");
    script.perform(Operation::WaitForever);
    assert(script@ =~= timer_effects(frequency));
    script
}

/// How far the start has come after a stage, and what the stage asks for.
pub struct BootStep {
    pub next: BootStage,
    pub script: Script,
}

/// What a stage of the start asks for.
pub open spec fn boot_script(
    stage: BootStage,
    registers: BootRegisters,
    image: KernelImage,
) -> Seq<EffectView> {
    match stage {
        BootStage::Reset => core_effects(registers.cpacr, image.exception_vector as u64),
        BootStage::Vectored => table_effects() + translation_effects(image.tables.l0),
        BootStage::Configured => report_effects(registers, image),
        BootStage::Reported => mmu_effects(registers.sctlr),
        BootStage::Translating => timer_effects(registers.frequency),
        BootStage::Running => seq![EffectView::Perform(Operation::WaitForever)],
    }
}

/// The stage behind `stage`.
pub open spec fn next_stage(stage: BootStage) -> BootStage {
    match stage {
        BootStage::Reset => BootStage::Vectored,
        BootStage::Vectored => BootStage::Configured,
        BootStage::Configured => BootStage::Reported,
        BootStage::Reported => BootStage::Translating,
        BootStage::Translating => BootStage::Running,
        BootStage::Running => BootStage::Running,
    }
}

/// The scheduler as the kernel starts it: the idle task and the RAM test, both
/// fresh, and none of them started.
pub open spec fn is_boot_scheduler(scheduler: Scheduler, image: KernelImage) -> bool {
    &&& scheduler.wf()
    &&& scheduler@.tasks.len() == 2
    &&& scheduler@.tasks[0].is_fresh(0, image.idle_task, image.tasks)
    &&& scheduler@.tasks[1].is_fresh(1, image.task_c, image.tasks)
    &&& scheduler@.current == 0
    &&& !scheduler@.started
}

/// One stage of the start of the kernel.
///
/// The tables that the second stage fills have to stand in memory before its
/// script is performed. The kernel has to end early enough in the RAM for the
/// allocator to manage what is behind it.
pub fn rust_start(
    stage: BootStage,
    registers: &BootRegisters,
    image: &KernelImage,
    memory: &mut PageAllocator,
    tables: &mut PageTables,
    scheduler: &mut Option<Scheduler>,
) -> (step: BootStep)
    requires
        stage == BootStage::Vectored ==> {
            &&& image.kernel_end + PAGE_SIZE <= usize::MAX
            &&& memory::page_boundary(image.kernel_end as int) <= old(memory).ram_end
            &&& (old(memory).ram_end - memory::page_boundary(image.kernel_end as int)) / (
            PAGE_SIZE as int) <= MAX_PAGE_COUNT
        },
        stage == BootStage::Reported ==> image.tasks.wf(),
    ensures
        step.next == next_stage(stage),
        step.script@ == boot_script(stage, *registers, *image),
        stage == BootStage::Vectored ==> {
            &&& final(memory)@.wf()
            &&& final(memory)@ == old(memory)@.after_init(image.kernel_end as int)
            &&& final(tables).configured_from(*old(tables), image.tables)
        },
        stage != BootStage::Vectored ==> *final(memory) == *old(memory) && *final(tables) == *old(
            tables,
        ),
        stage == BootStage::Reported ==> *final(scheduler) is Some && is_boot_scheduler(
            (*final(scheduler))->0,
            *image,
        ),
        stage != BootStage::Reported ==> *final(scheduler) == *old(scheduler),
{
    match stage {
        BootStage::Reset => {
            let script: Script = core_script(registers.cpacr, image.exception_vector as u64);
            BootStep { next: BootStage::Vectored, script }
        },
        BootStage::Vectored => {
            memory.init_memory(image.kernel_end);
            tables.test_page_table(&image.tables);
            let mut script: Script = table_script(tables);
            script.append(translation_script(image.tables.l0));
            BootStep { next: BootStage::Configured, script }
        },
        BootStage::Configured => {
            BootStep { next: BootStage::Reported, script: report_script(registers, image) }
        },
        BootStage::Reported => {
            let mut fresh: Scheduler = Scheduler::new();
            let _idle: usize = fresh.add_task(image.idle_task, &image.tasks);
            let _test: usize = fresh.add_task(image.task_c, &image.tasks);
            assert(fresh@.tasks[0] == fresh@.tasks.drop_last()[0]);
            *scheduler = Some(fresh);
            BootStep { next: BootStage::Translating, script: mmu_script(registers.sctlr) }
        },
        BootStage::Translating => {
            BootStep { next: BootStage::Running, script: timer_script(registers.frequency) }
        },
        BootStage::Running => {
            let mut script: Script = Script::new();
            script.perform(Operation::WaitForever);
            BootStep { next: BootStage::Running, script }
        },
    }
}

/// The scheduler that the start leaves is consistent, and its first tick runs
/// the RAM test.
pub proof fn law_first_tick_runs_the_ram_test(
    scheduler: Scheduler,
    image: KernelImage,
    frame: crate::exception::ExceptionFrame,
)
    requires
        is_boot_scheduler(scheduler, image),
    ensures
        scheduler@.consistent(),
        scheduler@.after_tick(frame).0.current == 1,
        scheduler@.after_tick(frame).1.elr == image.tasks.trampoline,
        scheduler@.after_tick(frame).1.x@[0] == image.task_c,
        scheduler@.after_tick(frame).1.sp == image.tasks.initial_sp(1),
{
}

} // verus!
