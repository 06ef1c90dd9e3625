//! The physical timer of the core.
use crate::effect::{EffectView, Operation, Script, SystemRegister};
use vstd::prelude::*;

verus! {

/// The number of ticks of the timer in a second.
pub const TICKS_PER_SECOND: u64 = 10;

/// The interrupt of the timer.
pub const TIMER_INTERRUPT: u32 = 30;

pub struct Timer;

impl Timer {
    /// The write that makes the timer fire after `ticks` counts.
    pub fn set_timeout(ticks: u64) -> (write: Operation)
        ensures
            write == (Operation::WriteRegister {
                register: SystemRegister::CntpTvalEl0,
                value: ticks,
            }),
    {
        Operation::WriteRegister { register: SystemRegister::CntpTvalEl0, value: ticks }
    }

    /// The counts between two timer interrupts on a timer of `frequency` Hz.
    pub fn period(frequency: u64) -> (ticks: u64)
        ensures
            ticks == frequency / TICKS_PER_SECOND,
            ticks * 10 <= frequency < ticks * 10 + 10,
    {
        frequency / TICKS_PER_SECOND
    }

    /// Turns the timer on.
    pub open spec fn enabling() -> Seq<EffectView> {
        seq![
            EffectView::Perform(
                Operation::WriteRegister { register: SystemRegister::CntpCtlEl0, value: 1 },
            ),
            EffectView::Perform(Operation::InstructionBarrier),
        ]
    }

    /// The script that turns the timer on.
    pub fn enable() -> (script: Script)
        ensures
            script@ == Self::enabling(),
    {
        let mut script: Script = Script::new();
        script.write_register(SystemRegister::CntpCtlEl0, 1);
        script.perform(Operation::InstructionBarrier);
        script
    }
}

} // verus!
