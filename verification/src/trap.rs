//! What the kernel does at each kind of exception.
use crate::effect::{EffectView, Operation, Script};
use crate::exception::ExceptionFrame;
use crate::scheduler::Scheduler;
use crate::syndrome;
use crate::text;
use crate::timer::{Timer, TIMER_INTERRUPT};
use vstd::prelude::*;
use vstd::string::*;

verus! {

/// The supervisor call by which a task ends.
pub const SVC_EXIT: u16 = 1;

/// The supervisor call by which a task gives the processor up.
pub const SVC_YIELD: u16 = 2;

/// The fault address whose data abort the kernel steps over.
pub const RECOVERABLE_ADDRESS: u64 = 0xDEAD_0000;

/// What a synchronous exception asks for.
#[derive(Clone, Copy, PartialEq, Eq, Structural, Debug)]
pub enum SyncAction {
    /// End the current task.
    Exit,
    /// Let the current task give the processor up.
    Yield,
    /// Report the data abort and go on behind the instruction.
    RecoverAbort,
    /// Report the breakpoint and go on behind it.
    SkipBreakpoint,
    /// Report the exception and stop.
    Halt,
}

/// What the exception with this syndrome and fault address asks for.
pub open spec fn action_of(esr: u64, far: u64) -> SyncAction {
    let ec = syndrome::class_of(esr);
    let iss = syndrome::specific_of(esr);
    if ec == syndrome::EC_SVC && iss == SVC_EXIT {
        SyncAction::Exit
    } else if ec == syndrome::EC_SVC && iss == SVC_YIELD {
        SyncAction::Yield
    } else if ec == syndrome::EC_DATA_ABORT_SAME_EL && far == RECOVERABLE_ADDRESS {
        SyncAction::RecoverAbort
    } else if ec == syndrome::EC_BRK {
        SyncAction::SkipBreakpoint
    } else {
        SyncAction::Halt
    }
}

/// What the exception with this syndrome and fault address asks for.
pub fn sync_action(esr: u64, far: u64) -> (action: SyncAction)
    ensures
        action == action_of(esr, far),
{
    let ec: u64 = syndrome::exception_class(esr);
    let iss: u64 = syndrome::specific_syndrome(esr);
    if ec == syndrome::EC_SVC && iss == SVC_EXIT as u64 {
        SyncAction::Exit
    } else if ec == syndrome::EC_SVC && iss == SVC_YIELD as u64 {
        SyncAction::Yield
    } else if ec == syndrome::EC_DATA_ABORT_SAME_EL && far == RECOVERABLE_ADDRESS {
        SyncAction::RecoverAbort
    } else if ec == syndrome::EC_BRK {
        SyncAction::SkipBreakpoint
    } else {
        SyncAction::Halt
    }
}

/// The system registers that a report shows, as they stand at the exception.
#[derive(Clone, Copy)]
pub struct FaultRegisters {
    pub sctlr: u64,
    pub vbar: u64,
    pub currentel: u64,
}

/// The report of a synchronous exception.
pub open spec fn fault_report(frame: ExceptionFrame, registers: FaultRegisters) -> Seq<char> {
    let ec = syndrome::class_of(frame.esr);
    let t = Seq::<char>::empty();
    let t = text::with_hex_line(t, "SCTLR_EL1 = "@, registers.sctlr as nat, 18);
    let t = text::with_hex_line(t, "VBAR_EL1 = "@, registers.vbar as nat, 18);
    let t = text::with_hex_line(t, "CURRENTEL = "@, registers.currentel as nat, 18);
    let t = text::with_line(t, "=== SYNCHRONOUS EXCEPTION ==="@);
    let t = text::with_text_line(t, "Cause   = "@, syndrome::cause(ec));
    let t = text::with_hex_line(t, "EC      = "@, ec as nat, 4);
    let t = text::with_decimal_line(t, "IL      = "@, syndrome::length_of(frame.esr) as nat);
    let t = text::with_hex_line(t, "ISS     = "@, syndrome::specific_of(frame.esr) as nat, 8);
    let t = text::with_hex_line(t, "X0      = "@, frame.x@[0] as nat, 18);
    let t = text::with_hex_line(t, "X1      = "@, frame.x@[1] as nat, 18);
    let t = text::with_hex_line(t, "X30     = "@, frame.x@[30] as nat, 18);
    let t = text::with_hex_line(t, "SP      = "@, frame.sp as nat, 18);
    let t = text::with_hex_line(t, "ELR     = "@, frame.elr as nat, 18);
    let t = text::with_hex_line(t, "SPSR    = "@, frame.spsr as nat, 18);
    let t = text::with_hex_line(t, "ESR     = "@, frame.esr as nat, 18);
    text::with_hex_line(t, "FAR     = "@, frame.far as nat, 18)
}

/// The report of a synchronous exception.
fn report_fault(frame: &ExceptionFrame, registers: &FaultRegisters) -> (report: String)
    ensures
        report@ == fault_report(*frame, *registers),
{
    let mut out: String = String::new();
    text::put_hex_line(&mut out, "SCTLR_EL1 = ", registers.sctlr, 18);
    text::put_hex_line(&mut out, "VBAR_EL1 = ", registers.vbar, 18);
    text::put_hex_line(&mut out, "CURRENTEL = ", registers.currentel, 18);
    text::put_line(&mut out, "=== SYNCHRONOUS EXCEPTION ===");
    text::put_text_line(&mut out, "Cause   = ", syndrome::decode_esr(frame.esr));
    text::put_hex_line(&mut out, "EC      = ", syndrome::exception_class(frame.esr), 4);
    text::put_decimal_line(&mut out, "IL      = ", syndrome::instruction_length(frame.esr));
    text::put_hex_line(&mut out, "ISS     = ", syndrome::specific_syndrome(frame.esr), 8);
    text::put_hex_line(&mut out, "X0      = ", frame.x[0], 18);
    text::put_hex_line(&mut out, "X1      = ", frame.x[1], 18);
    text::put_hex_line(&mut out, "X30     = ", frame.x[30], 18);
    text::put_hex_line(&mut out, "SP      = ", frame.sp, 18);
    text::put_hex_line(&mut out, "ELR     = ", frame.elr, 18);
    text::put_hex_line(&mut out, "SPSR    = ", frame.spsr, 18);
    text::put_hex_line(&mut out, "ESR     = ", frame.esr, 18);
    text::put_hex_line(&mut out, "FAR     = ", frame.far, 18);
    out
}

/// What the machine has to do at the exception.
pub open spec fn sync_script(frame: ExceptionFrame, registers: FaultRegisters) -> Seq<EffectView> {
    let report = fault_report(frame, registers);
    match action_of(frame.esr, frame.far) {
        SyncAction::Exit => Seq::empty(),
        SyncAction::Yield => Seq::empty(),
        SyncAction::RecoverAbort => seq![
            EffectView::Print(
                text::with_line(
                    syndrome::with_data_abort(report, frame.esr),
                    "Recovering from data abort..."@,
                ),
            ),
        ],
        SyncAction::SkipBreakpoint => seq![EffectView::Print(report)],
        SyncAction::Halt => seq![
            EffectView::Print(text::with_line(report, "KERNEL PANIC! Unhandled exception!"@)),
            EffectView::Perform(Operation::WaitForever),
        ],
    }
}

/// The script of the exception: nothing for a supervisor call of a task, else
/// the report, and for a fatal exception the halt behind it.
pub fn sync_report(frame: &ExceptionFrame, registers: &FaultRegisters) -> (script: Script)
    ensures
        script@ == sync_script(*frame, *registers),
{
    let mut script: Script = Script::new();
    match sync_action(frame.esr, frame.far) {
        SyncAction::Exit => {},
        SyncAction::Yield => {},
        SyncAction::RecoverAbort => {
            let mut report: String = report_fault(frame, registers);
            syndrome::decode_data_abort(&mut report, frame.esr);
            text::put_line(&mut report, "Recovering from data abort...");
            script.print(report);
        },
        SyncAction::SkipBreakpoint => {
            script.print(report_fault(frame, registers));
        },
        SyncAction::Halt => {
            let mut report: String = report_fault(frame, registers);
            text::put_line(&mut report, "KERNEL PANIC! Unhandled exception!");
            script.print(report);
            script.perform(Operation::WaitForever);
        },
    }
    script
}

/// Handles a synchronous exception: a supervisor call of a task goes to the
/// scheduler; any other is reported, and then stepped over or fatal.
///
/// A call to exit needs a scheduler with a current task other than the idle
/// one, a call to yield needs a scheduler, and an instruction to step over must
/// not end the address space.
pub fn exception_sync_rust(
    frame: &mut ExceptionFrame,
    scheduler: &mut Option<Scheduler>,
    registers: &FaultRegisters,
) -> (script: Script)
    requires
        match action_of(old(frame).esr, old(frame).far) {
            SyncAction::Exit => *old(scheduler) is Some && (*old(scheduler))->0.wf() && (*old(
                scheduler,
            ))->0@.current != 0,
            SyncAction::Yield => *old(scheduler) is Some && (*old(scheduler))->0.wf(),
            SyncAction::RecoverAbort => old(frame).elr + 4 <= u64::MAX,
            SyncAction::SkipBreakpoint => old(frame).elr + 4 <= u64::MAX,
            SyncAction::Halt => true,
        },
    ensures
        script@ == sync_script(*old(frame), *registers),
        match action_of(old(frame).esr, old(frame).far) {
            SyncAction::Exit => {
                &&& *final(scheduler) is Some
                &&& (*final(scheduler))->0.wf()
                &&& ((*final(scheduler))->0@, *final(frame)) == (*old(scheduler))->0@.after_exit(
                    *old(frame),
                )
            },
            SyncAction::Yield => {
                &&& *final(scheduler) is Some
                &&& (*final(scheduler))->0.wf()
                &&& ((*final(scheduler))->0@, *final(frame)) == (*old(scheduler))->0@.after_yield(
                    *old(frame),
                )
            },
            SyncAction::Halt => *final(scheduler) == *old(scheduler) && *final(frame) == *old(
                frame,
            ),
            _ => {
                &&& *final(scheduler) == *old(scheduler)
                &&& *final(frame) == (ExceptionFrame {
                    elr: (old(frame).elr + 4) as u64,
                    ..*old(frame)
                })
            },
        },
{
    let script: Script = sync_report(frame, registers);
    match sync_action(frame.esr, frame.far) {
        SyncAction::Exit => {
            if let Some(scheduler) = scheduler {
                scheduler.exit_current(frame);
            }
        },
        SyncAction::Yield => {
            if let Some(scheduler) = scheduler {
                scheduler.yield_current(frame);
            }
        },
        SyncAction::RecoverAbort => {
            frame.elr = frame.elr + 4;
        },
        SyncAction::SkipBreakpoint => {
            frame.elr = frame.elr + 4;
        },
        SyncAction::Halt => {},
    }
    script
}

/// Handles interrupt `interrupt_id`: the timer interrupt counts a tick, arms
/// the timer for the next one, and lets the scheduler choose a task. Any other
/// interrupt changes nothing.
pub fn exception_irq_rust(
    frame: &mut ExceptionFrame,
    interrupt_id: u32,
    ticks: &mut u64,
    frequency: u64,
    scheduler: &mut Option<Scheduler>,
) -> (write: Option<Operation>)
    requires
        interrupt_id == TIMER_INTERRUPT ==> *old(ticks) < u64::MAX,
        interrupt_id == TIMER_INTERRUPT ==> (*old(scheduler) matches Some(s) ==> s.wf()),
    ensures
        interrupt_id != TIMER_INTERRUPT ==> {
            &&& write is None
            &&& *final(ticks) == *old(ticks)
            &&& *final(frame) == *old(frame)
            &&& *final(scheduler) == *old(scheduler)
        },
        interrupt_id == TIMER_INTERRUPT ==> {
            &&& write == Some(
                Operation::WriteRegister {
                    register: crate::effect::SystemRegister::CntpTvalEl0,
                    value: frequency / 10,
                },
            )
            &&& *final(ticks) == *old(ticks) + 1
            &&& match *old(scheduler) {
                Some(before) => {
                    &&& *final(scheduler) is Some
                    &&& (*final(scheduler))->0.wf()
                    &&& ((*final(scheduler))->0@, *final(frame)) == before@.after_tick(*old(frame))
                },
                None => *final(scheduler) is None && *final(frame) == *old(frame),
            }
        },
{
    if interrupt_id != TIMER_INTERRUPT {
        return None;
    }
    *ticks = *ticks + 1;
    let write: Operation = Timer::set_timeout(Timer::period(frequency));
    if let Some(scheduler) = scheduler {
        scheduler.tick(frame);
    }
    Some(write)
}

/// The report of a fast interrupt.
pub open spec fn fiq_report(frame: ExceptionFrame) -> Seq<char> {
    let t = text::with_line(Seq::empty(), "=== FIQ ==="@);
    let t = text::with_hex_line(t, "ELR = "@, frame.elr as nat, 18);
    text::with_hex_line(t, "SP  = "@, frame.sp as nat, 18)
}

/// Reports a fast interrupt.
pub fn exception_fiq_rust(frame: &ExceptionFrame) -> (script: Script)
    ensures
        script@ == seq![EffectView::Print(fiq_report(*frame))],
{
    let mut report: String = String::new();
    text::put_line(&mut report, "=== FIQ ===");
    text::put_hex_line(&mut report, "ELR = ", frame.elr, 18);
    text::put_hex_line(&mut report, "SP  = ", frame.sp, 18);
    let mut script: Script = Script::new();
    script.print(report);
    script
}

/// Reports a system error and stops.
pub fn exception_serror_rust() -> (script: Script)
    ensures
        script@ == seq![
            EffectView::Print("SError exception!"@ + "\n"@),
            EffectView::Perform(Operation::WaitForever),
        ],
{
    let mut script: Script = Script::new();
    script.print_line("SError exception!");
    script.perform(Operation::WaitForever);
    script
}

/// Reports that the kernel failed and stops.
pub fn kernel_panic() -> (script: Script)
    ensures
        script@ == seq![
            EffectView::Print("KERNEL PANIC!\r\n"@),
            EffectView::Perform(Operation::WaitForever),
        ],
{
    let mut script: Script = Script::new();
    script.print(String::from_str("KERNEL PANIC!\r\n"));
    script.perform(Operation::WaitForever);
    script
}

/// The syndrome that the core records for `svc #number`.
pub open spec fn svc_syndrome(number: u16) -> u64 {
    (0x5600_0000 + number) as u64
}

/// The supervisor calls reach the scheduler: the one ends the task, the other
/// gives the processor up, and every other number is fatal.
pub proof fn law_supervisor_calls_reach_the_scheduler(number: u16, far: u64)
    ensures
        action_of(svc_syndrome(number), far) == if number == SVC_EXIT {
            SyncAction::Exit
        } else if number == SVC_YIELD {
            SyncAction::Yield
        } else {
            SyncAction::Halt
        },
{
}

} // verus!
