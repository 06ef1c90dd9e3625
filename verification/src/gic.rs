//! The generic interrupt controller.
use crate::effect::{EffectView, Operation, Script};
use crate::timer::TIMER_INTERRUPT;
use vstd::prelude::*;

verus! {

pub struct Gic {
    pub dist: usize,
    pub cpu: usize,
}

impl Gic {
    /// The store of `value` to the register at `offset` of `block`.
    pub open spec fn store(block: usize, offset: int, value: u32) -> EffectView {
        EffectView::Perform(Operation::Store32 { address: (block + offset) as usize, value })
    }

    /// The controller of the board.
    pub fn new() -> (gic: Self)
        ensures
            gic.dist == 0x0800_0000,
            gic.cpu == 0x0801_0000,
    {
        Gic { dist: 0x0800_0000, cpu: 0x0801_0000 }
    }

    /// The store of `value` to the distributor register at `offset`.
    pub fn write_dist(&self, offset: usize, value: u32) -> (store: Operation)
        requires
            self.dist + offset <= usize::MAX,
        ensures
            EffectView::Perform(store) == Self::store(self.dist, offset as int, value),
            store == (Operation::Store32 { address: (self.dist + offset) as usize, value }),
    {
        Operation::Store32 { address: self.dist + offset, value }
    }

    /// The store of `value` to the CPU interface register at `offset`.
    pub fn write_cpu(&self, offset: usize, value: u32) -> (store: Operation)
        requires
            self.cpu + offset <= usize::MAX,
        ensures
            EffectView::Perform(store) == Self::store(self.cpu, offset as int, value),
            store == (Operation::Store32 { address: (self.cpu + offset) as usize, value }),
    {
        Operation::Store32 { address: self.cpu + offset, value }
    }

    /// Turns the distributor on, lets the timer interrupt through, accepts
    /// every priority, and turns the CPU interface on, with a line of text
    /// before each step and one behind the last.
    pub open spec fn enabling(self) -> Seq<EffectView> {
        seq![
            EffectView::Print("Enabling GIC distributor..."@ + "\n"@),
            Self::store(self.dist, 0x000, 1),
            EffectView::Print("Enabling timer PPI..."@ + "\n"@),
            Self::store(self.dist, 0x100, 1u32 << TIMER_INTERRUPT),
            EffectView::Print("Configuring CPU priority..."@ + "\n"@),
            Self::store(self.cpu, 0x004, 0xFF),
            EffectView::Print("Enabling GIC CPU interface..."@ + "\n"@),
            Self::store(self.cpu, 0x000, 1),
            EffectView::Print("GIC enabled! Returning to main..."@ + "\n"@),
        ]
    }

    /// The script that enables the controller.
    pub fn enable(&self) -> (script: Script)
        requires
            self.dist + 0x100 <= usize::MAX,
            self.cpu + 0x004 <= usize::MAX,
        ensures
            script@ == self.enabling(),
    {
        let mut script: Script = Script::new();
        script.print_line("Enabling GIC distributor...");
        script.perform(self.write_dist(0x000, 1));
        script.print_line("Enabling timer PPI...");
        script.perform(self.write_dist(0x100, 1u32 << TIMER_INTERRUPT));
        script.print_line("Configuring CPU priority...");
        script.perform(self.write_cpu(0x004, 0xFF));
        script.print_line("Enabling GIC CPU interface...");
        script.perform(self.write_cpu(0x000, 1));
        script.print_line("GIC enabled! Returning to main...");
        script
    }
}

/// Enabling stores, in this order, 1 to the distributor's control register, the
/// bit of the timer interrupt alone to the first of its enable registers, the
/// lowest priority to the mask of the CPU interface, and 1 to its control
/// register. A text comes before each store and behind the last, and the texts
/// are the same for every controller.
pub proof fn law_enabling_stores_four_registers(gic: Gic, other: Gic)
    requires
        gic.dist + 0x100 <= usize::MAX,
        gic.cpu + 0x004 <= usize::MAX,
    ensures
        gic.enabling().len() == 9,
        gic.enabling()[1] == EffectView::Perform(
            Operation::Store32 { address: gic.dist, value: 1 },
        ),
        gic.enabling()[3] == EffectView::Perform(
            Operation::Store32 { address: (gic.dist + 0x100) as usize, value: 0x4000_0000 },
        ),
        gic.enabling()[5] == EffectView::Perform(
            Operation::Store32 { address: (gic.cpu + 4) as usize, value: 0xFF },
        ),
        gic.enabling()[7] == EffectView::Perform(
            Operation::Store32 { address: gic.cpu, value: 1 },
        ),
        forall|i: int|
            0 <= i < 9 && i % 2 == 0 ==> (#[trigger] gic.enabling()[i]) is Print
                && gic.enabling()[i] == other.enabling()[i],
{
    assert(1u32 << 30u32 == 0x4000_0000u32) by (bit_vector);
}

} // verus!
