//! What the kernel asks of the machine.
//!
//! The kernel decides and the machine layer acts: a function that would print,
//! store to a device or write a system register gives back a `Script`, and the
//! machine layer performs the script's effects in order.
use vstd::prelude::*;
use vstd::string::*;

verus! {

/// The system registers that the kernel writes.
#[derive(Clone, Copy, PartialEq, Eq, Structural, Debug)]
pub enum SystemRegister {
    CpacrEl1,
    VbarEl1,
    MairEl1,
    TcrEl1,
    Ttbr0El1,
    SctlrEl1,
    CntpTvalEl0,
    CntpCtlEl0,
}

/// One action of the machine other than printing.
#[allow(inconsistent_fields)]
#[derive(Clone, Copy, PartialEq, Eq, Structural, Debug)]
pub enum Operation {
    /// Store a byte to a device.
    Store8 { address: usize, value: u8 },
    /// Store a word to a device.
    Store32 { address: usize, value: u32 },
    /// Write a system register.
    WriteRegister { register: SystemRegister, value: u64 },
    /// Wait until every memory access before is complete.
    DataBarrier,
    /// Refetch every instruction behind.
    InstructionBarrier,
    /// Do nothing for one instruction.
    Nop,
    /// Let the core take interrupts.
    UnmaskInterrupts,
    /// Fill `length` bytes of memory with `value`.
    Fill { address: usize, length: usize, value: u8 },
    /// Read a byte of memory for the next step.
    ReadByte { address: usize },
    /// Spin for `rounds` rounds.
    Spin { rounds: u32 },
    /// Call the function at `address`.
    Call { address: u64 },
    /// Raise a supervisor call.
    SupervisorCall { number: u16 },
    /// Spin forever.
    SpinForever,
    /// Wait for events forever.
    WaitForever,
}

/// One step of a script.
pub enum Effect {
    /// Send text to the console.
    Print(String),
    /// Perform an operation.
    Perform(Operation),
}

/// An effect, with its text as a sequence of characters.
pub enum EffectView {
    Print(Seq<char>),
    Perform(Operation),
}

impl View for Effect {
    type V = EffectView;

    open spec fn view(&self) -> EffectView {
        match *self {
            Effect::Print(text) => EffectView::Print(text@),
            Effect::Perform(operation) => EffectView::Perform(operation),
        }
    }
}

/// Effects in the order in which they are to happen.
pub struct Script {
    pub effects: Vec<Effect>,
}

impl View for Script {
    type V = Seq<EffectView>;

    open spec fn view(&self) -> Seq<EffectView> {
        Seq::new(self.effects@.len(), |i: int| self.effects@[i]@)
    }
}

impl Script {
    /// A script without effects.
    pub fn new() -> (script: Script)
        ensures
            script@ == Seq::<EffectView>::empty(),
    {
        let script: Script = Script { effects: Vec::new() };
        assert(script@ =~= Seq::<EffectView>::empty());
        script
    }

    /// Adds the printing of `text`.
    pub fn print(&mut self, text: String)
        ensures
            final(self)@ == old(self)@.push(EffectView::Print(text@)),
    {
        self.effects.push(Effect::Print(text));
        assert(self@ =~= old(self)@.push(EffectView::Print(text@)));
    }

    /// Adds the printing of `line` and a line feed.
    pub fn print_line(&mut self, line: &str)
        ensures
            final(self)@ == old(self)@.push(EffectView::Print(line@ + "\n"@)),
    {
        let mut text: String = String::from_str(line);
        text.append("\n");
        self.print(text);
    }

    /// Adds `operation`.
    pub fn perform(&mut self, operation: Operation)
        ensures
            final(self)@ == old(self)@.push(EffectView::Perform(operation)),
    {
        self.effects.push(Effect::Perform(operation));
        assert(self@ =~= old(self)@.push(EffectView::Perform(operation)));
    }

    /// Adds the write of a system register.
    pub fn write_register(&mut self, register: SystemRegister, value: u64)
        ensures
            final(self)@ == old(self)@.push(
                EffectView::Perform(Operation::WriteRegister { register, value }),
            ),
    {
        self.perform(Operation::WriteRegister { register, value });
    }

    /// Adds every effect of `other`.
    pub fn append(&mut self, other: Script)
        ensures
            final(self)@ == old(self)@ + other@,
    {
        let mut rest: Vec<Effect> = other.effects;
        self.effects.append(&mut rest);
        assert(self@ =~= old(self)@ + other@);
    }
}

/// A script is seen effect by effect: each text as its characters, each
/// operation as itself.
pub proof fn law_script_is_seen_effect_by_effect(script: Script, i: int)
    requires
        0 <= i < script.effects@.len(),
    ensures
        script@.len() == script.effects@.len(),
        match script.effects@[i] {
            Effect::Print(text) => script@[i] == EffectView::Print(text@),
            Effect::Perform(operation) => script@[i] == EffectView::Perform(operation),
        },
{
}

} // verus!
