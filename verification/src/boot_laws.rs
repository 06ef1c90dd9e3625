//! What the start of the kernel asks for, told by the registers and the image
//! alone.
use crate::boot;
use crate::boot::{BootRegisters, BootStage, KernelImage};
use crate::effect::{EffectView, Operation, SystemRegister};
use crate::gic::Gic;
use crate::paging;
use crate::scheduler::Scheduler;
use crate::task::TaskState;
use crate::text;
use vstd::prelude::*;

verus! {

/// The first stage turns floating point on, by two bits of its register and no
/// other, and sets the vector to exactly the address given. All else that it
/// does is the same whatever the registers hold and wherever the vector lies.
pub proof fn law_core_writes(cpacr: u64, vector: u64, bit: u64, cpacr2: u64, vector2: u64)
    requires
        bit < 64,
    ensures
        ({
            let effects = boot::core_effects(cpacr, vector);
            let others = boot::core_effects(cpacr2, vector2);
            &&& effects.len() == 10
            &&& match effects[2] {
                EffectView::Perform(Operation::WriteRegister { register, value }) => {
                    &&& register == SystemRegister::CpacrEl1
                    &&& (value >> bit) & 1 == if bit == 20 || bit == 21 {
                        1
                    } else {
                        (cpacr >> bit) & 1
                    }
                },
                _ => false,
            }
            &&& effects[6] == EffectView::Perform(
                Operation::WriteRegister { register: SystemRegister::VbarEl1, value: vector },
            )
            &&& effects[3] == EffectView::Perform(Operation::InstructionBarrier)
            &&& effects[7] == EffectView::Perform(Operation::InstructionBarrier)
            &&& forall|i: int|
                0 <= i < 10 && i != 2 && i != 6 ==> #[trigger] effects[i] == others[i]
        }),
{
    assert(((cpacr | 0x30_0000) >> bit) & 1 == (if bit == 20 || bit == 21 {
        1
    } else {
        (cpacr >> bit) & 1
    })) by (bit_vector)
        requires
            bit < 64,
    ;
}

/// The tables are reported with the four entries that map the devices and the
/// RAM, in hexadecimal.
pub proof fn law_table_report()
    ensures
        boot::table_effects().len() == 7,
        boot::table_effects()[2] == EffectView::Print(
            "L2 RAM[0] = "@ + text::hexadecimal(0x4000_0401, 18) + "\n"@,
        ),
        boot::table_effects()[3] == EffectView::Print(
            "L2 RAM[1] = "@ + text::hexadecimal(0x4020_0401, 18) + "\n"@,
        ),
        boot::table_effects()[4] == EffectView::Print(
            "L2 DEVICE[64] = "@ + text::hexadecimal(0x0800_0405, 18) + "\n"@,
        ),
        boot::table_effects()[5] == EffectView::Print(
            "L2 DEVICE[72] = "@ + text::hexadecimal(0x0900_0405, 18) + "\n"@,
        ),
{
    assert((0x0800_0000u64 & 0x0000_FFFF_FFE0_0000) | 0b01 | 0x400 | (1u64 << 2) == 0x0800_0405
        && (0x0900_0000u64 & 0x0000_FFFF_FFE0_0000) | 0b01 | 0x400 | (1u64 << 2) == 0x0900_0405
        && (0x4000_0000u64 & 0x0000_FFFF_FFE0_0000) | 0b01 | 0x400 | (0u64 << 2) == 0x4000_0401
        && (0x4020_0000u64 & 0x0000_FFFF_FFE0_0000) | 0b01 | 0x400 | (0u64 << 2) == 0x4020_0401)
        by (bit_vector);
    assert(Seq::<char>::empty() + "L2 RAM[0] = "@ =~= "L2 RAM[0] = "@);
    assert(Seq::<char>::empty() + "L2 RAM[1] = "@ =~= "L2 RAM[1] = "@);
    assert(Seq::<char>::empty() + "L2 DEVICE[64] = "@ =~= "L2 DEVICE[64] = "@);
    assert(Seq::<char>::empty() + "L2 DEVICE[72] = "@ =~= "L2 DEVICE[72] = "@);
}

/// The translation registers get the attributes, the control value and exactly
/// the root table given, each before the core refetches. All else is the same
/// wherever the root table lies.
pub proof fn law_translation_writes(l0: u64, other: u64)
    ensures
        ({
            let effects = boot::translation_effects(l0);
            &&& effects.len() == 10
            &&& effects[0] == EffectView::Perform(
                Operation::WriteRegister { register: SystemRegister::MairEl1, value: 0x04FF },
            )
            &&& effects[3] == EffectView::Perform(
                Operation::WriteRegister {
                    register: SystemRegister::TcrEl1,
                    value: 0x2_0000_3519,
                },
            )
            &&& effects[6] == EffectView::Perform(
                Operation::WriteRegister { register: SystemRegister::Ttbr0El1, value: l0 },
            )
            &&& effects[1] == EffectView::Perform(Operation::InstructionBarrier)
            &&& effects[4] == EffectView::Perform(Operation::InstructionBarrier)
            &&& effects[7] == EffectView::Perform(Operation::DataBarrier)
            &&& effects[8] == EffectView::Perform(Operation::InstructionBarrier)
            &&& forall|i: int|
                0 <= i < 10 && i != 6 ==> #[trigger] effects[i] == boot::translation_effects(
                    other,
                )[i]
        }),
{
}

/// The report shows each register and each address under its own name, in 16
/// hexadecimal digits.
pub proof fn law_report_lines(registers: BootRegisters, image: KernelImage)
    ensures
        ({
            let effects = boot::report_effects(registers, image);
            &&& effects.len() == 12
            &&& effects[0] == EffectView::Print(
                "TCR  = "@ + text::hexadecimal(registers.tcr as nat, 18) + "\n"@,
            )
            &&& effects[1] == EffectView::Print(
                "TTBR0 = "@ + text::hexadecimal(registers.ttbr0 as nat, 18) + "\n"@,
            )
            &&& effects[2] == EffectView::Print(
                "MAIR = "@ + text::hexadecimal(registers.mair as nat, 18) + "\n"@,
            )
            &&& effects[3] == EffectView::Print(
                "SCTLR = "@ + text::hexadecimal(registers.sctlr as nat, 18) + "\n"@,
            )
            &&& effects[4] == EffectView::Print(
                "rust_start = "@ + text::hexadecimal(image.rust_start as nat, 18) + "\n"@,
            )
            &&& effects[5] == EffectView::Print(
                "exception_vector = "@ + text::hexadecimal(image.exception_vector as nat, 18)
                    + "\n"@,
            )
            &&& effects[6] == EffectView::Print(
                "_kernel_start = "@ + text::hexadecimal(image.kernel_start as nat, 18) + "\n"@,
            )
            &&& effects[7] == EffectView::Print(
                "_kernel_end = "@ + text::hexadecimal(image.kernel_end as nat, 18) + "\n"@,
            )
            &&& effects[8] == EffectView::Print(
                "STACK = "@ + text::hexadecimal(image.stack as nat, 18) + "\n"@,
            )
            &&& effects[9] == EffectView::Print(
                "PAGE_TABLE_L0 = "@ + text::hexadecimal(image.tables.l0 as nat, 18) + "\n"@,
            )
            &&& effects[10] == EffectView::Print(
                "SCHEDULER = "@ + text::hexadecimal(image.scheduler as nat, 18) + "\n"@,
            )
            &&& effects[11] == EffectView::Print("Enabling MMU..."@ + "\n"@)
        }),
{
    assert(Seq::<char>::empty() + "TCR  = "@ =~= "TCR  = "@);
    assert(Seq::<char>::empty() + "TTBR0 = "@ =~= "TTBR0 = "@);
    assert(Seq::<char>::empty() + "MAIR = "@ =~= "MAIR = "@);
    assert(Seq::<char>::empty() + "SCTLR = "@ =~= "SCTLR = "@);
    assert(Seq::<char>::empty() + "rust_start = "@ =~= "rust_start = "@);
    assert(Seq::<char>::empty() + "exception_vector = "@ =~= "exception_vector = "@);
    assert(Seq::<char>::empty() + "_kernel_start = "@ =~= "_kernel_start = "@);
    assert(Seq::<char>::empty() + "_kernel_end = "@ =~= "_kernel_end = "@);
    assert(Seq::<char>::empty() + "STACK = "@ =~= "STACK = "@);
    assert(Seq::<char>::empty() + "PAGE_TABLE_L0 = "@ =~= "PAGE_TABLE_L0 = "@);
    assert(Seq::<char>::empty() + "SCHEDULER = "@ =~= "SCHEDULER = "@);
}

/// Translation is turned on first, from the value that the register holds; then
/// the interrupt controller of the board is enabled. All but the first write is
/// the same whatever the register holds.
pub proof fn law_mmu_effects(sctlr: u64, other: u64)
    ensures
        ({
            let effects = boot::mmu_effects(sctlr);
            let gic = Gic { dist: 0x0800_0000, cpu: 0x0801_0000 };
            &&& effects.len() == 18
            &&& effects.subrange(0, 3) == paging::mmu_enabled(sctlr)
            &&& effects.subrange(7, 16) == gic.enabling()
            &&& forall|i: int|
                1 <= i < 18 ==> #[trigger] effects[i] == boot::mmu_effects(other)[i]
            &&& forall|i: int|
                3 <= i < 7 || 16 <= i < 18 ==> (#[trigger] effects[i]) is Print
        }),
{
    let gic = Gic { dist: 0x0800_0000, cpu: 0x0801_0000 };
    assert(boot::mmu_effects(sctlr).subrange(0, 3) =~= paging::mmu_enabled(sctlr));
    assert(boot::mmu_effects(sctlr).subrange(7, 16) =~= gic.enabling());
}

/// The timer is armed with a tenth of its frequency, rounded down, and turned on
/// behind that; only then are interrupts let in. All but the armed value is the
/// same at every frequency.
pub proof fn law_timer_effects(frequency: u64, other: u64)
    ensures
        ({
            let effects = boot::timer_effects(frequency);
            &&& effects.len() == 10
            &&& match effects[1] {
                EffectView::Perform(Operation::WriteRegister { register, value }) => {
                    &&& register == SystemRegister::CntpTvalEl0
                    &&& value * 10 <= frequency < value * 10 + 10
                },
                _ => false,
            }
            &&& effects[2] == EffectView::Perform(
                Operation::WriteRegister { register: SystemRegister::CntpCtlEl0, value: 1 },
            )
            &&& effects[3] == EffectView::Perform(Operation::InstructionBarrier)
            &&& effects[6] == EffectView::Perform(Operation::UnmaskInterrupts)
            &&& effects[9] == EffectView::Perform(Operation::WaitForever)
            &&& forall|i: int|
                0 <= i < 10 && i != 1 ==> #[trigger] effects[i] == boot::timer_effects(other)[i]
        }),
{
}

/// Each stage of the start asks for its own part, from the registers and the
/// addresses that belong to it.
pub proof fn law_script_of_each_stage(registers: BootRegisters, image: KernelImage)
    ensures
        boot::boot_script(BootStage::Reset, registers, image) == boot::core_effects(
            registers.cpacr,
            image.exception_vector as u64,
        ),
        boot::boot_script(BootStage::Vectored, registers, image).len() == 17,
        boot::boot_script(BootStage::Vectored, registers, image).subrange(0, 7)
            == boot::table_effects(),
        boot::boot_script(BootStage::Vectored, registers, image).subrange(7, 17)
            == boot::translation_effects(image.tables.l0),
        boot::boot_script(BootStage::Configured, registers, image) == boot::report_effects(
            registers,
            image,
        ),
        boot::boot_script(BootStage::Reported, registers, image) == boot::mmu_effects(
            registers.sctlr,
        ),
        boot::boot_script(BootStage::Translating, registers, image) == boot::timer_effects(
            registers.frequency,
        ),
        boot::boot_script(BootStage::Running, registers, image) == seq![
            EffectView::Perform(Operation::WaitForever),
        ],
{
    assert(boot::boot_script(BootStage::Vectored, registers, image).subrange(0, 7)
        =~= boot::table_effects());
    assert(boot::boot_script(BootStage::Vectored, registers, image).subrange(7, 17)
        =~= boot::translation_effects(image.tables.l0));
}

/// The stages come in order, and the last one stays.
pub proof fn law_order_of_stages(stage: BootStage)
    ensures
        boot::next_stage(stage) == match stage {
            BootStage::Reset => BootStage::Vectored,
            BootStage::Vectored => BootStage::Configured,
            BootStage::Configured => BootStage::Reported,
            BootStage::Reported => BootStage::Translating,
            _ => BootStage::Running,
        },
        boot::next_stage(
            boot::next_stage(boot::next_stage(boot::next_stage(boot::next_stage(stage)))),
        ) == BootStage::Running,
{
}

/// The kernel starts with two ready tasks, the idle one before the RAM test.
/// Each starts at the trampoline with its own entry function and stack, and none
/// of them has run.
pub proof fn law_two_tasks_at_the_start(scheduler: Scheduler, image: KernelImage, id: int)
    requires
        boot::is_boot_scheduler(scheduler, image),
        0 <= id < 2,
    ensures
        scheduler.wf(),
        scheduler@.tasks.len() == 2,
        scheduler@.current == 0,
        !scheduler@.started,
        scheduler@.tasks[id].id == id,
        scheduler@.tasks[id].state == TaskState::Ready,
        scheduler@.tasks[id].context.pc == image.tasks.trampoline,
        scheduler@.tasks[id].context.sp == image.tasks.initial_sp(id),
        scheduler@.tasks[id].context.spsr == 0b0101,
        scheduler@.tasks[id].context.x@[0] == if id == 0 {
            image.idle_task
        } else {
            image.task_c
        },
        forall|r: int| 1 <= r < 31 ==> #[trigger] scheduler@.tasks[id].context.x@[r] == 0,
{
}

} // verus!
