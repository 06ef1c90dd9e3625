use armkernel::effect::{Effect, Operation, Script, SystemRegister};
use armkernel::exception::ExceptionFrame;
use armkernel::scheduler::Scheduler;
use armkernel::syndrome::{
    decode_data_abort, decode_esr, exception_class, instruction_length, specific_syndrome,
};
use armkernel::task::{TaskImage, TaskState};
use armkernel::trap::{
    exception_fiq_rust, exception_irq_rust, exception_serror_rust, exception_sync_rust,
    kernel_panic, sync_action, sync_report, FaultRegisters, SyncAction,
};

const IMAGE: TaskImage = TaskImage {
    stacks: 0x4010_0000,
    trampoline: 0x4000_1234,
};

const REGISTERS: FaultRegisters = FaultRegisters {
    sctlr: 0x30D0_0800,
    vbar: 0x4008_0000,
    currentel: 4,
};

fn frame(esr: u64, far: u64) -> ExceptionFrame {
    let mut x = [0u64; 31];
    x[0] = 0xA0;
    x[1] = 0xA1;
    x[30] = 0xAF;
    ExceptionFrame {
        x,
        sp: 0x5000,
        elr: 0x6000,
        spsr: 0x3C5,
        esr,
        far,
    }
}

fn text(script: &Script) -> String {
    let mut out = String::new();
    for effect in &script.effects {
        if let Effect::Print(t) = effect {
            out.push_str(t);
        }
    }
    out
}

fn operations(script: &Script) -> Vec<Operation> {
    let mut all = Vec::new();
    for effect in &script.effects {
        if let Effect::Perform(o) = effect {
            all.push(*o);
        }
    }
    all
}

fn running() -> Scheduler {
    let mut scheduler = Scheduler::new();
    for entry in 0..3 {
        scheduler.add_task(0x1000 + entry, &IMAGE);
    }
    let mut f = frame(0, 0);
    scheduler.tick(&mut f);
    scheduler
}

fn report(f: &ExceptionFrame, cause: &str) -> String {
    let ec = (f.esr >> 26) & 0x3F;
    let il = (f.esr >> 25) & 1;
    let iss = f.esr & 0x01FF_FFFF;
    format!(
        "SCTLR_EL1 = 0x0000000030d00800\nVBAR_EL1 = 0x0000000040080000\n\
         CURRENTEL = 0x0000000000000004\n=== SYNCHRONOUS EXCEPTION ===\n\
         Cause   = {}\nEC      = {:#04x}\nIL      = {}\nISS     = {:#08x}\n\
         X0      = 0x00000000000000a0\nX1      = 0x00000000000000a1\n\
         X30     = 0x00000000000000af\nSP      = 0x0000000000005000\n\
         ELR     = 0x0000000000006000\nSPSR    = 0x00000000000003c5\n\
         ESR     = {:#018x}\nFAR     = {:#018x}\n",
        cause, ec, il, iss, f.esr, f.far
    )
}

#[test]
fn syndrome_fields_are_cut_out() {
    let esr = 0xFFFF_FFFF_9600_0045u64;
    assert_eq!(exception_class(esr), 0x25);
    assert_eq!(instruction_length(esr), 1);
    assert_eq!(specific_syndrome(esr), 0x45);
    assert_eq!(specific_syndrome(u64::MAX), 0x01FF_FFFF);
    assert_eq!(instruction_length(0), 0);
}

#[test]
fn every_exception_class_has_its_name() {
    let known = [
        (0x00u64, "Unknown exception"),
        (0x01, "Trapped WFI/WFE"),
        (0x07, "Trapped SVE/SME"),
        (0x15, "SVC instruction"),
        (0x16, "HVC instruction"),
        (0x17, "SMC instruction"),
        (0x18, "Trapped MSR/MRS"),
        (0x20, "Instruction abort from lower EL"),
        (0x21, "Instruction abort from same EL"),
        (0x22, "PC alignment fault"),
        (0x24, "Data abort from lower EL"),
        (0x25, "Data abort from same EL"),
        (0x26, "SP alignment fault"),
        (0x2C, "FP exception"),
        (0x3C, "BRK instruction"),
    ];
    for ec in 0..64u64 {
        let name = known
            .iter()
            .find(|k| k.0 == ec)
            .map(|k| k.1)
            .unwrap_or("Other synchronous exception");
        assert_eq!(decode_esr(ec << 26), name);
        assert_eq!(decode_esr(ec << 26 | 0x01FF_FFFF), name);
    }
}

#[test]
fn data_abort_is_spelled_out() {
    let mut out = String::new();
    decode_data_abort(&mut out, 0x25 << 26 | 1 << 24 | 3 << 22 | 1 << 6 | 0x07);
    assert_eq!(
        out,
        "Data abort details:\nISV = 1\nAccess = write\nAccess size = doubleword\n\
         DFSC = 0x07\nFault = Translation fault, level 3\n"
    );
    let mut out = String::from("> ");
    decode_data_abort(&mut out, 0);
    assert_eq!(
        out,
        "> Data abort details:\nISV = 0\nAccess = read\nAccess size = byte\n\
         DFSC = 0x00\nFault = Other data abort\n"
    );
}

#[test]
fn every_fault_status_has_its_name() {
    let known = [
        (0x04u64, "Translation fault, level 0"),
        (0x05, "Translation fault, level 1"),
        (0x06, "Translation fault, level 2"),
        (0x07, "Translation fault, level 3"),
        (0x09, "Access flag fault, level 1"),
        (0x0A, "Access flag fault, level 2"),
        (0x0B, "Access flag fault, level 3"),
        (0x0D, "Permission fault, level 1"),
        (0x0E, "Permission fault, level 2"),
        (0x0F, "Permission fault, level 3"),
        (0x10, "Synchronous external abort"),
        (0x11, "Synchronous external abort, translation table walk, level 1"),
        (0x12, "Synchronous external abort, translation table walk, level 2"),
        (0x13, "Synchronous external abort, translation table walk, level 3"),
    ];
    for dfsc in 0..64u64 {
        let name = known
            .iter()
            .find(|k| k.0 == dfsc)
            .map(|k| k.1)
            .unwrap_or("Other data abort");
        let mut out = String::new();
        decode_data_abort(&mut out, dfsc);
        assert!(out.ends_with(&format!("Fault = {}\n", name)));
    }
    for (sas, size) in [(0u64, "byte"), (1, "halfword"), (2, "word"), (3, "doubleword")] {
        let mut out = String::new();
        decode_data_abort(&mut out, sas << 22);
        assert!(out.contains(&format!("Access size = {}\n", size)));
    }
}

#[test]
fn exceptions_ask_for_their_actions() {
    assert_eq!(sync_action(0x5600_0001, 0), SyncAction::Exit);
    assert_eq!(sync_action(0x5600_0002, 0), SyncAction::Yield);
    assert_eq!(sync_action(0x5600_0003, 0), SyncAction::Halt);
    assert_eq!(sync_action(0x5600_0000, 0xDEAD_0000), SyncAction::Halt);
    assert_eq!(sync_action(0x9600_0045, 0xDEAD_0000), SyncAction::RecoverAbort);
    assert_eq!(sync_action(0x9600_0045, 0xDEAD_0001), SyncAction::Halt);
    assert_eq!(sync_action(0x9200_0045, 0xDEAD_0000), SyncAction::Halt);
    assert_eq!(sync_action(0xF200_0000, 0), SyncAction::SkipBreakpoint);
    assert_eq!(sync_action(0, 0), SyncAction::Halt);
}

#[test]
fn supervisor_call_one_ends_the_task() {
    let mut scheduler = Some(running());
    let mut f = frame(0x5600_0001, 0);
    let script = exception_sync_rust(&mut f, &mut scheduler, &REGISTERS);
    assert_eq!(script.effects.len(), 0);
    let scheduler = scheduler.unwrap();
    assert_eq!(scheduler.current, 2);
    assert_eq!(scheduler.tasks.tasks[1].as_ref().unwrap().state, TaskState::Dead);
    assert_eq!(f.x[0], 0x1002);
    assert_eq!(f.elr, 0x4000_1234);
    assert_eq!(f.esr, 0x5600_0001);
}

#[test]
fn supervisor_call_two_yields() {
    let mut scheduler = Some(running());
    let mut f = frame(0x5600_0002, 0);
    let script = exception_sync_rust(&mut f, &mut scheduler, &REGISTERS);
    assert_eq!(script.effects.len(), 0);
    let scheduler = scheduler.unwrap();
    assert_eq!(scheduler.current, 2);
    let first = scheduler.tasks.tasks[1].as_ref().unwrap();
    assert_eq!(first.state, TaskState::Ready);
    assert_eq!(first.context.pc, 0x6000);
    assert_eq!(f.x[0], 0x1002);
}

#[test]
fn known_data_abort_is_stepped_over() {
    let mut scheduler = None;
    let before = frame(0x9600_0045, 0xDEAD_0000);
    let mut f = before;
    let script = exception_sync_rust(&mut f, &mut scheduler, &REGISTERS);
    assert_eq!(f.elr, 0x6004);
    assert_eq!(f.x, before.x);
    assert_eq!(f.sp, before.sp);
    assert!(operations(&script).is_empty());
    let expected = report(&before, "Data abort from same EL")
        + "Data abort details:\nISV = 0\nAccess = write\nAccess size = byte\n\
           DFSC = 0x05\nFault = Translation fault, level 1\n\
           Recovering from data abort...\n";
    assert_eq!(text(&script), expected);
}

#[test]
fn breakpoint_is_stepped_over() {
    let mut scheduler = None;
    let before = frame(0xF200_0001, 0);
    let mut f = before;
    let script = exception_sync_rust(&mut f, &mut scheduler, &REGISTERS);
    assert_eq!(f.elr, 0x6004);
    assert!(operations(&script).is_empty());
    assert_eq!(text(&script), report(&before, "BRK instruction"));
    assert_eq!(text(&sync_report(&before, &REGISTERS)), text(&script));
}

#[test]
fn other_exceptions_are_fatal() {
    for (esr, cause) in [
        (0x5600_0007u64, "SVC instruction"),
        (0x8600_0006, "Instruction abort from same EL"),
        (0x9600_0045, "Data abort from same EL"),
    ] {
        let mut scheduler = Some(running());
        let before = frame(esr, 0x1234);
        let mut f = before;
        let script = exception_sync_rust(&mut f, &mut scheduler, &REGISTERS);
        assert_eq!(f.elr, before.elr);
        assert_eq!(scheduler.unwrap().current, 1);
        assert_eq!(
            text(&script),
            report(&before, cause) + "KERNEL PANIC! Unhandled exception!\n"
        );
        assert_eq!(operations(&script), vec![Operation::WaitForever]);
    }
}

#[test]
fn timer_interrupt_counts_rearms_and_switches() {
    let mut scheduler = Some(running());
    let mut ticks = 41;
    let mut f = frame(0, 0);
    let write = exception_irq_rust(&mut f, 30, &mut ticks, 62_500_009, &mut scheduler);
    assert_eq!(
        write,
        Some(Operation::WriteRegister {
            register: SystemRegister::CntpTvalEl0,
            value: 6_250_000,
        })
    );
    assert_eq!(ticks, 42);
    assert_eq!(scheduler.unwrap().current, 2);
    assert_eq!(f.x[0], 0x1002);
}

#[test]
fn timer_interrupt_without_scheduler_only_rearms() {
    let mut scheduler = None;
    let mut ticks = 0;
    let mut f = frame(0, 0);
    let write = exception_irq_rust(&mut f, 30, &mut ticks, 10, &mut scheduler);
    assert!(write.is_some());
    assert_eq!(ticks, 1);
    assert_eq!(f.elr, 0x6000);
}

#[test]
fn other_interrupts_change_nothing() {
    for id in [0u32, 29, 31, 1023] {
        let mut scheduler = Some(running());
        let mut ticks = 5;
        let mut f = frame(0, 0);
        let write = exception_irq_rust(&mut f, id, &mut ticks, 100, &mut scheduler);
        assert_eq!(write, None);
        assert_eq!(ticks, 5);
        assert_eq!(f.elr, 0x6000);
        assert_eq!(scheduler.unwrap().current, 1);
    }
}

#[test]
fn fast_interrupt_is_reported() {
    let script = exception_fiq_rust(&frame(0, 0));
    assert_eq!(
        text(&script),
        "=== FIQ ===\nELR = 0x0000000000006000\nSP  = 0x0000000000005000\n"
    );
    assert!(operations(&script).is_empty());
}

#[test]
fn system_error_and_panic_stop_the_kernel() {
    let script = exception_serror_rust();
    assert_eq!(text(&script), "SError exception!\n");
    assert_eq!(operations(&script), vec![Operation::WaitForever]);
    let script = kernel_panic();
    assert_eq!(text(&script), "KERNEL PANIC!\r\n");
    assert_eq!(operations(&script), vec![Operation::WaitForever]);
}
