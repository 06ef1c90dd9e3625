//! What the tasks run: the way in and out of a task, the idle task, and two
//! tasks that count.
use crate::effect::{EffectView, Operation, Script};
use crate::text;
use crate::trap::{SVC_EXIT, SVC_YIELD};
use vstd::prelude::*;
use vstd::string::*;

verus! {

/// The rounds that a counting task spins between two numbers.
pub const SPIN_ROUNDS: u32 = 500_000;

/// The end of a task: the call that ends it, and no way behind it.
pub open spec fn exit_operations() -> Seq<Operation> {
    seq![Operation::SupervisorCall { number: SVC_EXIT }, Operation::SpinForever]
}

/// Ends the current task.
pub fn task_exit() -> (operations: [Operation; 2])
    ensures
        operations@ == exit_operations(),
{
    let operations: [Operation; 2] = [
        Operation::SupervisorCall { number: SVC_EXIT },
        Operation::SpinForever,
    ];
    assert(operations@ =~= exit_operations());
    operations
}

/// Runs the function at `entry`, and ends the task when it returns.
pub fn task_trampoline(entry: u64) -> (operations: [Operation; 3])
    ensures
        operations@ == seq![Operation::Call { address: entry }] + exit_operations(),
{
    let exit: [Operation; 2] = task_exit();
    let operations: [Operation; 3] = [Operation::Call { address: entry }, exit[0], exit[1]];
    assert(operations@ =~= seq![Operation::Call { address: entry }] + exit_operations());
    operations
}

/// Gives the processor up.
pub fn yield_now() -> (call: Operation)
    ensures
        call == (Operation::SupervisorCall { number: SVC_YIELD }),
{
    Operation::SupervisorCall { number: SVC_YIELD }
}

/// Waits for interrupts.
pub fn idle_task() -> (wait: Operation)
    ensures
        wait == Operation::WaitForever,
{
    Operation::WaitForever
}

/// The number that a counting task goes on with, and what it does for it.
pub struct CountStep {
    pub value: u64,
    pub script: Script,
}

/// The number behind `value`: the count starts again behind the last one.
pub open spec fn next_count(value: u64) -> u64 {
    if value == u64::MAX {
        0
    } else {
        (value + 1) as u64
    }
}

/// One step to `value`: spin, print the number, and end at `last`.
pub open spec fn counting(label: Seq<char>, value: u64, last: u64) -> Seq<EffectView> {
    let shown = seq![
        EffectView::Perform(Operation::Spin { rounds: SPIN_ROUNDS }),
        EffectView::Print(text::with_hex_line(Seq::empty(), label, value as nat, 0)),
    ];
    if value == last {
        shown.push(EffectView::Perform(exit_operations()[0])).push(
            EffectView::Perform(exit_operations()[1]),
        )
    } else {
        shown
    }
}

/// One step from `value` of a task that counts to `last`.
fn count(label: &str, value: u64, last: u64) -> (step: CountStep)
    ensures
        step.value == next_count(value),
        step.script@ == counting(label@, next_count(value), last),
{
    let next: u64 = value.wrapping_add(1);
    let mut line: String = String::new();
    text::put_hex_line(&mut line, label, next, 0);
    let mut script: Script = Script::new();
    script.perform(Operation::Spin { rounds: SPIN_ROUNDS });
    script.print(line);
    if next == last {
        let exit: [Operation; 2] = task_exit();
        script.perform(exit[0]);
        script.perform(exit[1]);
    }
    assert(script@ =~= counting(label@, next, last));
    CountStep { value: next, script }
}

/// The number that the first counting task starts from.
pub const TASK_A_START: u64 = 0;

/// The number that the first counting task ends at.
pub const TASK_A_LAST: u64 = 100;

/// The number that the second counting task starts from.
pub const TASK_B_START: u64 = 1000;

/// The number that the second counting task ends at.
pub const TASK_B_LAST: u64 = 2000;

/// One step of the first counting task.
pub fn task_a(a: u64) -> (step: CountStep)
    ensures
        step.value == next_count(a),
        step.script@ == counting("A value = "@, next_count(a), TASK_A_LAST),
{
    count("A value = ", a, TASK_A_LAST)
}

/// One step of the second counting task.
pub fn task_b(b: u64) -> (step: CountStep)
    ensures
        step.value == next_count(b),
        step.script@ == counting("B value = "@, next_count(b), TASK_B_LAST),
{
    count("B value = ", b, TASK_B_LAST)
}

/// The number of a counting task after `steps` steps from `start`.
pub open spec fn counted(start: u64, steps: nat) -> u64
    decreases steps,
{
    if steps == 0 {
        start
    } else {
        next_count(counted(start, (steps - 1) as nat))
    }
}

/// A task that counts from `start` reaches `last` for the first time after
/// exactly `last - start` steps, and meets each number on the way once.
pub proof fn law_counting_task_ends(start: u64, last: u64, steps: nat)
    requires
        start < last,
        steps <= last - start,
    ensures
        counted(start, steps) == start + steps,
        counted(start, steps) == last <==> steps == last - start,
    decreases steps,
{
    if steps > 0 {
        law_counting_task_ends(start, last, (steps - 1) as nat);
    }
}

/// The count goes up by one, and from the last 64-bit number to zero.
pub proof fn law_count_goes_up_by_one(value: u64)
    ensures
        next_count(value) == (value + 1) % 0x1_0000_0000_0000_0000,
{
}

/// A counting task spins, prints its label and the number, and goes on: it ends
/// at the last number, by the call that ends a task, and at no other.
pub proof fn law_counting_step(label: Seq<char>, value: u64, last: u64)
    ensures
        ({
            let effects = counting(label, value, last);
            &&& effects[0] == EffectView::Perform(Operation::Spin { rounds: 500_000 })
            &&& effects[1] == EffectView::Print(
                label + text::hexadecimal(value as nat, 0) + seq!['\n'],
            )
            &&& value != last ==> effects.len() == 2
            &&& value == last ==> {
                &&& effects.len() == 4
                &&& effects[2] == EffectView::Perform(Operation::SupervisorCall { number: 1 })
                &&& effects[3] == EffectView::Perform(Operation::SpinForever)
            }
        }),
{
    reveal_strlit("\n");
    assert("\n"@ =~= seq!['\n']);
    assert(Seq::<char>::empty() + label =~= label);
}

/// A task runs its entry function, and ends by the call that ends a task.
pub proof fn law_task_ends_by_its_call()
    ensures
        exit_operations() == seq![
            Operation::SupervisorCall { number: 1 },
            Operation::SpinForever,
        ],
{
}

} // verus!
