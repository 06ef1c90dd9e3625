//! What the kernel does at an exception, told by the bits of the syndrome and
//! the registers of the frame alone.
use crate::effect::{EffectView, Operation};
use crate::exception::ExceptionFrame;
use crate::syndrome;
use crate::text;
use crate::trap;
use crate::trap::{FaultRegisters, SyncAction};
use vstd::prelude::*;

verus! {

/// The syndrome made of a class, an instruction length bit and 25 specific bits,
/// below whatever the upper half of the register holds.
pub open spec fn composed(upper: u32, ec: u64, il: u64, iss: u64) -> int {
    upper * 0x1_0000_0000 + ec * 0x400_0000 + il * 0x200_0000 + iss
}

/// A syndrome is taken apart into the fields that it is made of.
pub proof fn law_syndrome_fields(esr: u64, upper: u32, ec: u64, il: u64, iss: u64)
    requires
        ec < 64,
        il < 2,
        iss < 0x200_0000,
        esr == composed(upper, ec, il, iss),
    ensures
        syndrome::class_of(esr) == ec,
        syndrome::length_of(esr) == il,
        syndrome::specific_of(esr) == iss,
{
}

/// The class alone decides, whatever the other bits say: a supervisor call ends
/// the task by its number 1 and gives the processor up by its number 2, a data
/// abort of the kernel at the recoverable address is stepped over, every
/// breakpoint is stepped over, and all else is fatal.
pub proof fn law_action_by_class(
    esr: u64,
    far: u64,
    upper: u32,
    ec: u64,
    il: u64,
    iss: u64,
)
    requires
        ec < 64,
        il < 2,
        iss < 0x200_0000,
        esr == composed(upper, ec, il, iss),
    ensures
        trap::action_of(esr, far) == SyncAction::Exit <==> ec == 0x15 && iss == 1,
        trap::action_of(esr, far) == SyncAction::Yield <==> ec == 0x15 && iss == 2,
        trap::action_of(esr, far) == SyncAction::RecoverAbort <==> ec == 0x25 && far
            == 0xDEAD_0000,
        trap::action_of(esr, far) == SyncAction::SkipBreakpoint <==> ec == 0x3C,
        trap::action_of(esr, far) == SyncAction::Halt <==> !(ec == 0x15 && (iss == 1 || iss == 2))
            && !(ec == 0x25 && far == 0xDEAD_0000) && ec != 0x3C,
{
    law_syndrome_fields(esr, upper, ec, il, iss);
}

/// What the kernel chooses for an exception is told by bits 31 to 26 of the
/// syndrome; bits 24 to 0 count for a supervisor call alone, and the fault
/// address for a data abort alone.
pub proof fn law_chosen_action(esr: u64, far: u64, action: SyncAction)
    requires
        call_ensures(trap::sync_action, (esr, far), action),
    ensures
        (esr >> 26) & 0x3F == 0x25 && far == 0xDEAD_0000 ==> action == SyncAction::RecoverAbort,
        (esr >> 26) & 0x3F == 0x25 && far != 0xDEAD_0000 ==> action == SyncAction::Halt,
        (esr >> 26) & 0x3F == 0x3C ==> action == SyncAction::SkipBreakpoint,
        (esr >> 26) & 0x3F == 0x15 ==> action == if esr & 0x1FF_FFFF == 1 {
            SyncAction::Exit
        } else if esr & 0x1FF_FFFF == 2 {
            SyncAction::Yield
        } else {
            SyncAction::Halt
        },
        (esr >> 26) & 0x3F != 0x15 && (esr >> 26) & 0x3F != 0x25 && (esr >> 26) & 0x3F != 0x3C
            ==> action == SyncAction::Halt,
{
    assert((esr >> 26) & 0x3F == esr / 0x400_0000 % 64 && esr & 0x1FF_FFFF == esr % 0x200_0000)
        by (bit_vector);
}

/// Two exceptions of one class other than a supervisor call, at one address, are
/// treated alike.
pub proof fn law_specific_bits_count_for_calls_alone(esr: u64, other: u64, far: u64)
    requires
        (esr >> 26) & 0x3F == (other >> 26) & 0x3F,
        (esr >> 26) & 0x3F != 0x15,
    ensures
        trap::action_of(esr, far) == trap::action_of(other, far),
{
    assert((esr >> 26) & 0x3F == esr / 0x400_0000 % 64 && (other >> 26) & 0x3F == other
        / 0x400_0000 % 64) by (bit_vector);
}

/// The names of the exception classes.
pub proof fn law_names_of_classes(ec: u64)
    ensures
        ec == 0x00 ==> syndrome::cause(ec) == "Unknown exception"@,
        ec == 0x01 ==> syndrome::cause(ec) == "Trapped WFI/WFE"@,
        ec == 0x07 ==> syndrome::cause(ec) == "Trapped SVE/SME"@,
        ec == 0x15 ==> syndrome::cause(ec) == "SVC instruction"@,
        ec == 0x16 ==> syndrome::cause(ec) == "HVC instruction"@,
        ec == 0x17 ==> syndrome::cause(ec) == "SMC instruction"@,
        ec == 0x18 ==> syndrome::cause(ec) == "Trapped MSR/MRS"@,
        ec == 0x20 ==> syndrome::cause(ec) == "Instruction abort from lower EL"@,
        ec == 0x21 ==> syndrome::cause(ec) == "Instruction abort from same EL"@,
        ec == 0x22 ==> syndrome::cause(ec) == "PC alignment fault"@,
        ec == 0x24 ==> syndrome::cause(ec) == "Data abort from lower EL"@,
        ec == 0x25 ==> syndrome::cause(ec) == "Data abort from same EL"@,
        ec == 0x26 ==> syndrome::cause(ec) == "SP alignment fault"@,
        ec == 0x2C ==> syndrome::cause(ec) == "FP exception"@,
        ec == 0x3C ==> syndrome::cause(ec) == "BRK instruction"@,
        !(ec <= 0x01 || ec == 0x07 || 0x15 <= ec <= 0x18 || 0x20 <= ec <= 0x22 || 0x24 <= ec
            <= 0x26 || ec == 0x2C || ec == 0x3C) ==> syndrome::cause(ec)
            == "Other synchronous exception"@,
{
}

/// The names of the fault statuses: the low two bits of a translation, access
/// flag or permission fault tell the level.
pub proof fn law_names_of_faults(dfsc: u64)
    ensures
        dfsc == 0x04 ==> syndrome::fault(dfsc) == "Translation fault, level 0"@,
        dfsc == 0x05 ==> syndrome::fault(dfsc) == "Translation fault, level 1"@,
        dfsc == 0x06 ==> syndrome::fault(dfsc) == "Translation fault, level 2"@,
        dfsc == 0x07 ==> syndrome::fault(dfsc) == "Translation fault, level 3"@,
        dfsc == 0x09 ==> syndrome::fault(dfsc) == "Access flag fault, level 1"@,
        dfsc == 0x0A ==> syndrome::fault(dfsc) == "Access flag fault, level 2"@,
        dfsc == 0x0B ==> syndrome::fault(dfsc) == "Access flag fault, level 3"@,
        dfsc == 0x0D ==> syndrome::fault(dfsc) == "Permission fault, level 1"@,
        dfsc == 0x0E ==> syndrome::fault(dfsc) == "Permission fault, level 2"@,
        dfsc == 0x0F ==> syndrome::fault(dfsc) == "Permission fault, level 3"@,
        dfsc == 0x10 ==> syndrome::fault(dfsc) == "Synchronous external abort"@,
        dfsc == 0x11 ==> syndrome::fault(dfsc)
            == "Synchronous external abort, translation table walk, level 1"@,
        dfsc == 0x12 ==> syndrome::fault(dfsc)
            == "Synchronous external abort, translation table walk, level 2"@,
        dfsc == 0x13 ==> syndrome::fault(dfsc)
            == "Synchronous external abort, translation table walk, level 3"@,
        dfsc < 0x04 || dfsc == 0x08 || dfsc == 0x0C || dfsc > 0x13 ==> syndrome::fault(dfsc)
            == "Other data abort"@,
{
}

/// The names of the access sizes, by the power of two of the bytes.
pub proof fn law_names_of_sizes(sas: u64)
    ensures
        sas == 0 ==> syndrome::access_size(sas) == "byte"@,
        sas == 1 ==> syndrome::access_size(sas) == "halfword"@,
        sas == 2 ==> syndrome::access_size(sas) == "word"@,
        sas == 3 ==> syndrome::access_size(sas) == "doubleword"@,
{
}

/// The details of a data abort show, line by line, bit 24 of the syndrome, its
/// bit 6 as the direction, its bits 23 and 22 as the size, and its bits 5 to 0
/// as a number and in words. No other bit shows.
pub proof fn law_details_show_the_bits(
    out: Seq<char>,
    esr: u64,
    isv: u64,
    size: u64,
    write: bool,
    status: u64,
)
    requires
        isv == (esr >> 24) & 1,
        size == (esr >> 22) & 3,
        write == ((esr >> 6) & 1 == 1),
        status == esr & 0x3F,
    ensures
        syndrome::with_data_abort(out, esr) == out + "Data abort details:"@ + "\n"@ + "ISV = "@
            + text::decimal(isv as nat) + "\n"@ + "Access = "@ + (if write {
            "write"@
        } else {
            "read"@
        }) + "\n"@ + "Access size = "@ + syndrome::access_size(size) + "\n"@ + "DFSC = "@
            + text::hexadecimal(status as nat, 4) + "\n"@ + "Fault = "@ + syndrome::fault(status)
            + "\n"@,
{
    assert(isv == esr / 0x100_0000 % 2 && size == esr / 0x40_0000 % 4 && (esr >> 6) & 1 == esr / 64
        % 2 && status == esr % 64) by (bit_vector)
        requires
            isv == (esr >> 24) & 1,
            size == (esr >> 22) & 3,
            status == esr & 0x3F,
    ;
}

/// The report shows, line by line, the system registers, the parts of the
/// syndrome, and what the frame holds.
pub proof fn law_report_shows_the_registers(
    frame: ExceptionFrame,
    registers: FaultRegisters,
    upper: u32,
    ec: u64,
    il: u64,
    iss: u64,
)
    requires
        ec < 64,
        il < 2,
        iss < 0x200_0000,
        frame.esr == composed(upper, ec, il, iss),
    ensures
        trap::fault_report(frame, registers) == "SCTLR_EL1 = "@ + text::hexadecimal(
            registers.sctlr as nat,
            18,
        ) + "\n"@ + "VBAR_EL1 = "@ + text::hexadecimal(registers.vbar as nat, 18) + "\n"@
            + "CURRENTEL = "@ + text::hexadecimal(registers.currentel as nat, 18) + "\n"@
            + "=== SYNCHRONOUS EXCEPTION ==="@ + "\n"@ + "Cause   = "@ + syndrome::cause(ec)
            + "\n"@ + "EC      = "@ + text::hexadecimal(ec as nat, 4) + "\n"@ + "IL      = "@
            + text::decimal(il as nat) + "\n"@ + "ISS     = "@ + text::hexadecimal(iss as nat, 8)
            + "\n"@ + "X0      = "@ + text::hexadecimal(frame.x@[0] as nat, 18) + "\n"@
            + "X1      = "@ + text::hexadecimal(frame.x@[1] as nat, 18) + "\n"@ + "X30     = "@
            + text::hexadecimal(frame.x@[30] as nat, 18) + "\n"@ + "SP      = "@
            + text::hexadecimal(frame.sp as nat, 18) + "\n"@ + "ELR     = "@ + text::hexadecimal(
            frame.elr as nat,
            18,
        ) + "\n"@ + "SPSR    = "@ + text::hexadecimal(frame.spsr as nat, 18) + "\n"@
            + "ESR     = "@ + text::hexadecimal(frame.esr as nat, 18) + "\n"@ + "FAR     = "@
            + text::hexadecimal(frame.far as nat, 18) + "\n"@,
{
    law_syndrome_fields(frame.esr, upper, ec, il, iss);
    assert(Seq::<char>::empty() + "SCTLR_EL1 = "@ =~= "SCTLR_EL1 = "@);
}

/// What the machine has to do at an exception: nothing for the two calls of a
/// task, only the report for a breakpoint, the report and the details for an
/// abort that is stepped over, and else the report, a cry, and the halt.
pub proof fn law_script_by_class(
    frame: ExceptionFrame,
    registers: FaultRegisters,
    upper: u32,
    ec: u64,
    il: u64,
    iss: u64,
)
    requires
        ec < 64,
        il < 2,
        iss < 0x200_0000,
        frame.esr == composed(upper, ec, il, iss),
    ensures
        ({
            let script = trap::sync_script(frame, registers);
            let report = trap::fault_report(frame, registers);
            if ec == 0x15 && (iss == 1 || iss == 2) {
                script.len() == 0
            } else if ec == 0x3C {
                script.len() == 1 && script[0] == EffectView::Print(report)
            } else if ec == 0x25 && frame.far == 0xDEAD_0000 {
                script.len() == 1 && script[0] == EffectView::Print(
                    syndrome::with_data_abort(report, frame.esr)
                        + "Recovering from data abort..."@ + "\n"@,
                )
            } else {
                script.len() == 2 && script[0] == EffectView::Print(
                    report + "KERNEL PANIC! Unhandled exception!"@ + "\n"@,
                ) && script[1] == EffectView::Perform(Operation::WaitForever)
            }
        }),
{
    law_syndrome_fields(frame.esr, upper, ec, il, iss);
}

/// A fast interrupt is reported with the address to return to and the stack
/// pointer.
pub proof fn law_fast_interrupt_report(frame: ExceptionFrame)
    ensures
        trap::fiq_report(frame) == "=== FIQ ==="@ + "\n"@ + "ELR = "@ + text::hexadecimal(
            frame.elr as nat,
            18,
        ) + "\n"@ + "SP  = "@ + text::hexadecimal(frame.sp as nat, 18) + "\n"@,
{
    assert(Seq::<char>::empty() + "=== FIQ ==="@ =~= "=== FIQ ==="@);
}

} // verus!
