//! Tasks, their saved processor state and the table that holds them.
use crate::exception::ExceptionFrame;
use vstd::prelude::*;

verus! {

/// The size of each task's stack in bytes.
pub const TASK_STACK_SIZE: usize = 16384;

/// The number of slots of a task table.
pub const MAX_TASKS: usize = 4;

/// Saved program status of a fresh task: EL1 with its own stack pointer.
pub const SPSR_EL1H: u64 = 0b0101;

#[derive(Clone, Copy, PartialEq, Eq, Structural, Debug)]
pub enum TaskState {
    Ready,
    Running,
    Dead,
    Unused,
    Blocked,
}

/// What a task needs of the processor to go on where it stopped.
#[derive(Clone, Copy)]
pub struct CpuContext {
    pub x: [u64; 31],
    pub sp: u64,
    pub pc: u64,
    pub spsr: u64,
}

pub struct Task {
    pub id: usize,
    pub state: TaskState,
    pub context: CpuContext,
}

/// Where the kernel image holds what a fresh task starts from.
#[derive(Clone, Copy)]
pub struct TaskImage {
    /// Address of the array of `MAX_TASKS` task stacks.
    pub stacks: u64,
    /// Address of the trampoline, which takes the entry function in `x0`.
    pub trampoline: u64,
}

impl TaskImage {
    /// The array of stacks lies in the address space.
    pub open spec fn wf(self) -> bool {
        self.stacks + MAX_TASKS * TASK_STACK_SIZE <= u64::MAX
    }

    /// The lowest address of the stack of task `id`.
    pub open spec fn stack_bottom(self, id: int) -> int {
        self.stacks + id * TASK_STACK_SIZE
    }

    /// The address just above the stack of task `id`.
    pub open spec fn stack_top(self, id: int) -> int {
        self.stack_bottom(id) + TASK_STACK_SIZE
    }

    /// The stack pointer that task `id` starts with: one 16-byte slot below
    /// the highest 16-byte boundary of its stack.
    pub open spec fn initial_sp(self, id: int) -> int {
        self.stack_top(id) - self.stack_top(id) % 16 - 16
    }
}

impl CpuContext {
    /// The context that `frame` holds.
    pub open spec fn of(frame: ExceptionFrame) -> CpuContext {
        CpuContext { x: frame.x, sp: frame.sp, pc: frame.elr, spsr: frame.spsr }
    }

    /// `frame` changed so that the exception returns into this context. The
    /// syndrome and the fault address stay.
    pub open spec fn loaded(self, frame: ExceptionFrame) -> ExceptionFrame {
        ExceptionFrame { x: self.x, sp: self.sp, elr: self.pc, spsr: self.spsr, ..frame }
    }
}

impl Task {
    /// A fresh task: ready, at the trampoline, on top of its own empty stack,
    /// with its entry function in `x0` and every other register zero.
    pub open spec fn is_fresh(self, id: int, entry: u64, image: TaskImage) -> bool {
        &&& self.id == id
        &&& self.state == TaskState::Ready
        &&& self.context.x@[0] == entry
        &&& forall|r: int| 1 <= r < 31 ==> #[trigger] self.context.x@[r] == 0
        &&& self.context.sp == image.initial_sp(id)
        &&& self.context.pc == image.trampoline
        &&& self.context.spsr == SPSR_EL1H
    }

    /// A fresh task for slot `id` that runs the function at address `entry`.
    pub fn new(id: usize, entry: u64, image: &TaskImage) -> (task: Self)
        requires
            id < MAX_TASKS,
            image.wf(),
        ensures
            task.is_fresh(id as int, entry, *image),
    {
        assert(id * TASK_STACK_SIZE + TASK_STACK_SIZE <= MAX_TASKS * TASK_STACK_SIZE)
            by (nonlinear_arith)
            requires
                id < MAX_TASKS,
        ;
        let stack_bottom: u64 = image.stacks + id as u64 * TASK_STACK_SIZE as u64;
        let stack_top: u64 = stack_bottom + TASK_STACK_SIZE as u64;
        assert(stack_top & !0xFu64 == stack_top - stack_top % 16) by (bit_vector);
        let initial_sp: u64 = (stack_top & !0xFu64) - 16;
        let mut x: [u64; 31] = [0; 31];
        x[0] = entry;
        Task {
            id,
            state: TaskState::Ready,
            context: CpuContext { x, sp: initial_sp, pc: image.trampoline, spsr: SPSR_EL1H },
        }
    }

    /// Records the state of the interrupted code as the task's own.
    pub fn save_context(&mut self, frame: &ExceptionFrame)
        ensures
            *final(self) == (Task { context: CpuContext::of(*frame), ..*old(self) }),
    {
        self.context.x = frame.x;
        self.context.sp = frame.sp;
        self.context.pc = frame.elr;
        self.context.spsr = frame.spsr;
    }

    /// Makes the exception return into the task.
    pub fn load_context(&self, frame: &mut ExceptionFrame)
        ensures
            *final(frame) == self.context.loaded(*old(frame)),
    {
        frame.x = self.context.x;
        frame.sp = self.context.sp;
        frame.elr = self.context.pc;
        frame.spsr = self.context.spsr;
    }
}

/// The tasks in the order of their creation; slot 0 is the idle task.
pub struct TaskTable {
    pub tasks: [Option<Task>; MAX_TASKS],
    pub count: usize,
}

impl View for TaskTable {
    type V = Seq<Task>;

    /// The created tasks, each at its own id.
    open spec fn view(&self) -> Seq<Task> {
        Seq::new(self.count as nat, |i: int| self.tasks@[i]->0)
    }
}

impl TaskTable {
    /// The first `count` slots, and no others, are taken, each by the task of
    /// that id.
    pub open spec fn wf(self) -> bool {
        &&& self.count <= MAX_TASKS
        &&& forall|i: int|
            0 <= i < MAX_TASKS ==> (#[trigger] self.tasks@[i] is Some <==> i < self.count)
        &&& forall|i: int| 0 <= i < self.count ==> (#[trigger] self.tasks@[i])->0.id == i
    }

    /// A table without tasks.
    pub fn new() -> (table: Self)
        ensures
            table.wf(),
            table@ == Seq::<Task>::empty(),
    {
        let table: TaskTable = TaskTable { tasks: [None, None, None, None], count: 0 };
        assert(table@ =~= Seq::<Task>::empty());
        table
    }

    /// Adds a fresh task that runs the function at `entry`, and gives its id.
    pub fn create(&mut self, entry: u64, image: &TaskImage) -> (id: usize)
        requires
            old(self).wf(),
            old(self)@.len() < MAX_TASKS,
            image.wf(),
        ensures
            final(self).wf(),
            id == old(self)@.len(),
            final(self)@.len() == id + 1,
            final(self)@.drop_last() == old(self)@,
            final(self)@.last().is_fresh(id as int, entry, *image),
    {
        let id: usize = self.count;
        self.tasks[id] = Some(Task::new(id, entry, image));
        self.count = self.count + 1;
        assert(self@.drop_last() =~= old(self)@);
        id
    }
}

/// The stacks of two tasks do not overlap, and all lie in the address space.
pub proof fn law_stacks_are_disjoint(image: TaskImage, lower: int, upper: int)
    requires
        image.wf(),
        0 <= lower < upper < MAX_TASKS,
    ensures
        image.stack_top(lower) <= image.stack_bottom(upper),
        image.stack_top(upper) <= u64::MAX,
{
}

/// A fresh task's stack pointer is the highest multiple of 16 that leaves 16
/// bytes of the task's own stack above it.
pub proof fn law_initial_sp_lies_in_own_stack(image: TaskImage, id: int)
    requires
        image.wf(),
        0 <= id < MAX_TASKS,
    ensures
        image.initial_sp(id) % 16 == 0,
        image.stack_bottom(id) <= image.initial_sp(id),
        image.stack_top(id) - 32 < image.initial_sp(id),
        image.initial_sp(id) + 16 <= image.stack_top(id),
{
}

/// The stacks lie one behind the other, each of 16 KiB, from the start of the
/// array on.
pub proof fn law_stacks_are_contiguous(image: TaskImage, id: int)
    ensures
        image.stack_bottom(0) == image.stacks,
        image.stack_bottom(id + 1) == image.stack_top(id),
        image.stack_top(id) - image.stack_bottom(id) == 16384,
{
}

/// The array of stacks lies in the address space where its 64 KiB do, and in no
/// other case.
pub proof fn law_valid_images(image: TaskImage)
    ensures
        image.wf() <==> image.stacks + 0x1_0000 <= u64::MAX,
{
    assert(MAX_TASKS * TASK_STACK_SIZE == 0x1_0000) by (nonlinear_arith);
}

/// A fresh task of id `id` is ready, and starts at the trampoline, in EL1 on its
/// own stack pointer, with its entry function in `x0` and zero in every other
/// register. No other task of that id is fresh.
pub proof fn law_fresh_task_starts_at_the_trampoline(
    task: Task,
    id: int,
    entry: u64,
    image: TaskImage,
)
    ensures
        task.is_fresh(id, entry, image) <==> {
            &&& task.id == id
            &&& task.state == TaskState::Ready
            &&& task.context.x@ == Seq::new(31, |r: int| 0u64).update(0, entry)
            &&& task.context.sp == image.initial_sp(id)
            &&& task.context.pc == image.trampoline
            &&& task.context.spsr == 0b0101
        },
{
    let zeroed = Seq::new(31, |r: int| 0u64).update(0, entry);
    if task.is_fresh(id, entry, image) {
        assert(task.context.x@ =~= zeroed);
    }
    if task.context.x@ == zeroed {
        assert(zeroed[0] == entry);
        assert forall|r: int| 1 <= r < 31 implies #[trigger] task.context.x@[r] == 0 by {
            assert(zeroed[r] == 0);
        }
    }
}

} // verus!
