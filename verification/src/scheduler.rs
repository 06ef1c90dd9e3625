//! The round-robin scheduler.
//!
//! Slot 0 is the idle task. It runs when no other task is ready, and is never
//! chosen otherwise.
use crate::exception::ExceptionFrame;
use crate::task::{CpuContext, Task, TaskImage, TaskState, TaskTable, MAX_TASKS};
use vstd::prelude::*;

verus! {

pub struct Scheduler {
    pub tasks: TaskTable,
    pub current: usize,
    pub started: bool,
}

/// What the scheduler decides over: the tasks by id, the id of the task on the
/// processor, and whether the first task was ever started.
pub struct SchedulerView {
    pub tasks: Seq<Task>,
    pub current: int,
    pub started: bool,
}

impl View for Scheduler {
    type V = SchedulerView;

    open spec fn view(&self) -> SchedulerView {
        SchedulerView {
            tasks: self.tasks@,
            current: self.current as int,
            started: self.started,
        }
    }
}

impl SchedulerView {
    /// `current` is the idle task or names a task.
    pub open spec fn wf(self) -> bool {
        0 <= self.current && (self.current == 0 || self.current < self.tasks.len())
    }

    /// Task `id` may be chosen: it is ready and not the idle task.
    pub open spec fn ready(self, id: int) -> bool {
        0 < id < self.tasks.len() && self.tasks[id].state == TaskState::Ready
    }

    /// The id that lies `distance` places behind the current one, round the
    /// table.
    pub open spec fn id_at(self, distance: int) -> int {
        (self.current + distance) % (self.tasks.len() as int)
    }

    /// The first ready task at `distance` or farther behind the current one.
    pub open spec fn first_ready_from(self, distance: int) -> Option<int>
        decreases self.tasks.len() - distance,
    {
        if distance >= self.tasks.len() {
            None
        } else if self.ready(self.id_at(distance)) {
            Some(self.id_at(distance))
        } else {
            self.first_ready_from(distance + 1)
        }
    }

    /// The ready task that comes first behind the current one, round the table.
    pub open spec fn next_ready(self) -> Option<int> {
        self.first_ready_from(1)
    }

    /// Task `id` in state `state`.
    pub open spec fn with_state(self, id: int, state: TaskState) -> SchedulerView {
        SchedulerView {
            tasks: self.tasks.update(id, Task { state, ..self.tasks[id] }),
            ..self
        }
    }

    /// The current task is ready again and holds what `frame` shows of it.
    pub open spec fn suspended(self, frame: ExceptionFrame) -> SchedulerView {
        SchedulerView {
            tasks: self.tasks.update(
                self.current,
                Task {
                    state: TaskState::Ready,
                    context: CpuContext::of(frame),
                    ..self.tasks[self.current]
                },
            ),
            ..self
        }
    }

    /// Task `id` takes the processor: it is current and running, and the
    /// exception returns into it.
    pub open spec fn dispatched(self, id: int, frame: ExceptionFrame) -> (
        SchedulerView,
        ExceptionFrame,
    ) {
        (
            SchedulerView { current: id, ..self.with_state(id, TaskState::Running) },
            self.tasks[id].context.loaded(frame),
        )
    }

    /// The first start: task 1 takes the processor, or the idle task where
    /// there is no other. A second start changes nothing.
    pub open spec fn after_start(self, frame: ExceptionFrame) -> (SchedulerView, ExceptionFrame) {
        let marked = SchedulerView { started: true, ..self };
        if self.started {
            (self, frame)
        } else if self.tasks.len() > 1 {
            marked.dispatched(1, frame)
        } else if self.tasks.len() == 1 {
            marked.dispatched(0, frame)
        } else {
            (SchedulerView { current: 0, ..marked }, frame)
        }
    }

    /// What a timer tick finds to choose from: a running task other than the
    /// idle one has gone back to the ready ones.
    pub open spec fn preempted(self, frame: ExceptionFrame) -> SchedulerView {
        if self.current != 0 && self.tasks[self.current].state == TaskState::Running {
            self.suspended(frame)
        } else {
            self
        }
    }

    /// A timer tick: the next ready task takes the processor. Where there is
    /// none the current task goes on if it can, and the idle task runs if it
    /// cannot.
    pub open spec fn after_tick(self, frame: ExceptionFrame) -> (SchedulerView, ExceptionFrame) {
        if self.tasks.len() == 0 {
            (self, frame)
        } else if !self.started {
            self.after_start(frame)
        } else {
            let waiting = self.preempted(frame);
            match waiting.next_ready() {
                Some(id) => waiting.dispatched(id, frame),
                None => if waiting.ready(self.current) {
                    waiting.dispatched(self.current, frame)
                } else {
                    waiting.dispatched(0, frame)
                },
            }
        }
    }

    /// The current task gives the processor up: the next ready task takes it,
    /// and where there is none the current task goes on.
    pub open spec fn after_yield(self, frame: ExceptionFrame) -> (SchedulerView, ExceptionFrame) {
        if self.tasks.len() <= 1 {
            (self, frame)
        } else {
            let waiting = if self.current != 0 {
                self.suspended(frame)
            } else {
                self
            };
            match waiting.next_ready() {
                Some(id) => waiting.dispatched(id, frame),
                None => if self.current != 0 {
                    waiting.dispatched(self.current, frame)
                } else {
                    (waiting, frame)
                },
            }
        }
    }

    /// The current task is dead: the next ready task takes the processor, or
    /// the idle task where there is none.
    pub open spec fn after_exit(self, frame: ExceptionFrame) -> (SchedulerView, ExceptionFrame) {
        let rest = self.with_state(self.current, TaskState::Dead);
        match rest.next_ready() {
            Some(id) => rest.dispatched(id, frame),
            None => rest.dispatched(0, frame),
        }
    }
}

impl Scheduler {
    pub open spec fn wf(self) -> bool {
        self.tasks.wf() && self@.wf()
    }

    /// A scheduler without tasks, not started.
    pub fn new() -> (scheduler: Self)
        ensures
            scheduler.wf(),
            scheduler@ == (SchedulerView {
                tasks: Seq::<Task>::empty(),
                current: 0,
                started: false,
            }),
    {
        Scheduler { tasks: TaskTable::new(), current: 0, started: false }
    }

    /// Adds a fresh task that runs the function at `entry`, and gives its id.
    pub fn add_task(&mut self, entry: u64, image: &TaskImage) -> (id: usize)
        requires
            old(self).wf(),
            old(self)@.tasks.len() < MAX_TASKS,
            image.wf(),
        ensures
            final(self).wf(),
            id == old(self)@.tasks.len(),
            final(self)@.tasks.len() == id + 1,
            final(self)@.tasks.drop_last() == old(self)@.tasks,
            final(self)@.tasks.last().is_fresh(id as int, entry, *image),
            final(self)@.current == old(self)@.current,
            final(self)@.started == old(self)@.started,
    {
        self.tasks.create(entry, image)
    }

    /// The ready task that comes first behind the current one, round the table.
    pub fn next_ready(&self) -> (next: Option<usize>)
        requires
            self.wf(),
        ensures
            match next {
                Some(id) => self@.next_ready() == Some(id as int) && self@.ready(id as int),
                None => self@.next_ready() is None,
            },
    {
        if self.tasks.count <= 1 {
            return None;
        }
        let start: usize = self.current;
        let mut offset: usize = 1;
        while offset < self.tasks.count
            invariant
                self.wf(),
                start == self.current,
                1 <= offset <= self.tasks.count,
                self@.next_ready() == self@.first_ready_from(offset as int),
            decreases self.tasks.count - offset,
        {
            let id: usize = (start + offset) % self.tasks.count;
            assert(id == self@.id_at(offset as int));
            if id != 0 {
                match &self.tasks.tasks[id] {
                    Some(task) => {
                        assert(*task == self@.tasks[id as int]);
                        if task.state == TaskState::Ready {
                            return Some(id);
                        }
                    },
                    None => {},
                }
            }
            offset = offset + 1;
        }
        None
    }

    /// Gives the processor to task `id`.
    fn dispatch(&mut self, id: usize, frame: &mut ExceptionFrame)
        requires
            old(self).wf(),
            id < old(self)@.tasks.len(),
        ensures
            final(self).wf(),
            (final(self)@, *final(frame)) == old(self)@.dispatched(id as int, *old(frame)),
    {
        self.current = id;
        if let Some(task) = &mut self.tasks.tasks[id] {
            task.state = TaskState::Running;
            task.load_context(frame);
        }
        assert(self@.tasks =~= old(self)@.dispatched(id as int, *old(frame)).0.tasks);
    }

    /// Runs the first task.
    pub fn start(&mut self, frame: &mut ExceptionFrame)
        requires
            old(self).wf(),
        ensures
            final(self).wf(),
            (final(self)@, *final(frame)) == old(self)@.after_start(*old(frame)),
    {
        if self.started {
            return;
        }
        self.started = true;
        if self.tasks.count > 1 {
            self.dispatch(1, frame);
        } else if self.tasks.count == 1 {
            self.dispatch(0, frame);
        } else {
            self.current = 0;
        }
    }

    /// Takes the processor from the current task at a timer tick, and gives it
    /// to the next one.
    pub fn tick(&mut self, frame: &mut ExceptionFrame)
        requires
            old(self).wf(),
        ensures
            final(self).wf(),
            (final(self)@, *final(frame)) == old(self)@.after_tick(*old(frame)),
    {
        if self.tasks.count == 0 {
            return;
        }
        if !self.started {
            self.start(frame);
            return;
        }
        if self.current != 0 {
            if let Some(task) = &mut self.tasks.tasks[self.current] {
                if task.state == TaskState::Running {
                    task.save_context(frame);
                    task.state = TaskState::Ready;
                }
            }
        }
        assert(self@.tasks =~= old(self)@.preempted(*old(frame)).tasks);
        let next: usize = match self.next_ready() {
            Some(id) => id,
            None => {
                if self.current != 0 {
                    if let Some(task) = &self.tasks.tasks[self.current] {
                        if task.state == TaskState::Ready {
                            let current: usize = self.current;
                            self.dispatch(current, frame);
                            return;
                        }
                    }
                }
                0
            },
        };
        self.dispatch(next, frame);
    }

    /// Takes the processor from the current task at its own wish, and gives it
    /// to the next one.
    pub fn yield_current(&mut self, frame: &mut ExceptionFrame)
        requires
            old(self).wf(),
        ensures
            final(self).wf(),
            (final(self)@, *final(frame)) == old(self)@.after_yield(*old(frame)),
    {
        if self.tasks.count <= 1 {
            return;
        }
        if self.current != 0 {
            if let Some(task) = &mut self.tasks.tasks[self.current] {
                task.save_context(frame);
                task.state = TaskState::Ready;
            }
            assert(self@.tasks =~= old(self)@.suspended(*old(frame)).tasks);
        }
        match self.next_ready() {
            Some(id) => {
                self.dispatch(id, frame);
            },
            None => {
                if self.current != 0 {
                    let current: usize = self.current;
                    self.dispatch(current, frame);
                }
            },
        }
    }

    /// Ends the current task, and gives the processor to the next one. The idle
    /// task does not end.
    pub fn exit_current(&mut self, frame: &mut ExceptionFrame)
        requires
            old(self).wf(),
            old(self)@.current != 0,
        ensures
            final(self).wf(),
            (final(self)@, *final(frame)) == old(self)@.after_exit(*old(frame)),
    {
        if let Some(task) = &mut self.tasks.tasks[self.current] {
            task.state = TaskState::Dead;
        }
        assert(self@.tasks =~= old(self)@.with_state(
            old(self)@.current,
            TaskState::Dead,
        ).tasks);
        match self.next_ready() {
            Some(id) => {
                self.dispatch(id, frame);
            },
            None => {
                self.dispatch(0, frame);
            },
        }
    }
}

} // verus!
