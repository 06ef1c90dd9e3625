//! What holds of every run of the scheduler.
use crate::exception::ExceptionFrame;
use crate::scheduler::SchedulerView;
use crate::task::{CpuContext, Task, TaskState};
use vstd::prelude::*;

verus! {

/// What moves the processor from one task to another.
pub enum Switch {
    Start,
    Tick,
    Yield,
    Exit,
}

impl SchedulerView {
    /// Before the start every task is ready. From the start on the current
    /// task is running, and no other is: but the idle task keeps that state
    /// once it has run.
    pub open spec fn consistent(self) -> bool {
        &&& self.wf()
        &&& !self.started ==> self.current == 0
        &&& !self.started ==> forall|id: int|
            0 <= id < self.tasks.len() ==> (#[trigger] self.tasks[id]).state == TaskState::Ready
        &&& self.current != 0 ==> self.tasks[self.current].state == TaskState::Running
        &&& forall|id: int|
            0 < id < self.tasks.len() && id != self.current ==> (#[trigger] self.tasks[id]).state
                != TaskState::Running
    }

    /// What `switch` makes of the scheduler and of the frame.
    pub open spec fn after(self, switch: Switch, frame: ExceptionFrame) -> (
        SchedulerView,
        ExceptionFrame,
    ) {
        match switch {
            Switch::Start => self.after_start(frame),
            Switch::Tick => self.after_tick(frame),
            Switch::Yield => self.after_yield(frame),
            Switch::Exit => self.after_exit(frame),
        }
    }

    /// `switch` can happen here: a task yields only after the start, and the
    /// idle task does not exit.
    pub open spec fn allows(self, switch: Switch) -> bool {
        match switch {
            Switch::Start => true,
            Switch::Tick => true,
            Switch::Yield => self.started,
            Switch::Exit => self.current != 0,
        }
    }

    /// How far task `id` lies behind the current one, round the table.
    pub open spec fn distance_to(self, id: int) -> int {
        if id > self.current {
            id - self.current
        } else {
            id - self.current + self.tasks.len()
        }
    }

    /// The scheduler after `events`, each a switch and the frame it finds.
    pub open spec fn after_events(self, events: Seq<(Switch, ExceptionFrame)>) -> SchedulerView
        decreases events.len(),
    {
        if events.len() == 0 {
            self
        } else {
            self.after(events[0].0, events[0].1).0.after_events(events.skip(1))
        }
    }

    /// `events` can happen here in their order, and none of them chooses `id`.
    pub open spec fn passes_over(self, events: Seq<(Switch, ExceptionFrame)>, id: int) -> bool
        decreases events.len(),
    {
        if events.len() == 0 {
            true
        } else {
            let next = self.after(events[0].0, events[0].1).0;
            self.allows(events[0].0) && next.current != id && next.passes_over(events.skip(1), id)
        }
    }

    /// The scheduler after one timer tick for each of `frames`.
    pub open spec fn after_ticks(self, frames: Seq<ExceptionFrame>) -> SchedulerView
        decreases frames.len(),
    {
        if frames.len() == 0 {
            self
        } else {
            self.after_tick(frames[0]).0.after_ticks(frames.skip(1))
        }
    }
}

/// The place of an id behind the current one, and the id at that place.
proof fn lemma_distance(s: SchedulerView, id: int)
    requires
        s.wf(),
        0 <= id < s.tasks.len(),
    ensures
        1 <= s.distance_to(id) <= s.tasks.len(),
        s.distance_to(id) == s.tasks.len() <==> id == s.current,
        s.id_at(s.distance_to(id)) == id,
{
    let n = s.tasks.len() as int;
    if id > s.current {
        vstd::arithmetic::div_mod::lemma_small_mod(id as nat, n as nat);
    } else {
        vstd::arithmetic::div_mod::lemma_mod_add_multiples_vanish(id, n);
        vstd::arithmetic::div_mod::lemma_small_mod(id as nat, n as nat);
    }
}

/// What the search from `from` on finds.
proof fn lemma_first_ready_from(s: SchedulerView, from: int)
    requires
        s.wf(),
        1 <= from,
    ensures
        match s.first_ready_from(from) {
            Some(id) => {
                &&& s.ready(id)
                &&& from <= s.distance_to(id) < s.tasks.len()
                &&& forall|d: int|
                    from <= d < s.distance_to(id) ==> !s.ready(#[trigger] s.id_at(d))
            },
            None => forall|d: int|
                from <= d < s.tasks.len() ==> !s.ready(#[trigger] s.id_at(d)),
        },
    decreases s.tasks.len() - from,
{
    let n = s.tasks.len() as int;
    if from < n {
        let id = s.id_at(from);
        assert(id == if s.current + from < n {
            s.current + from
        } else {
            s.current + from - n
        }) by {
            if s.current + from < n {
                vstd::arithmetic::div_mod::lemma_small_mod((s.current + from) as nat, n as nat);
            } else {
                let r = s.current + from - n;
                vstd::arithmetic::div_mod::lemma_mod_add_multiples_vanish(r, n);
                vstd::arithmetic::div_mod::lemma_small_mod(r as nat, n as nat);
            }
        }
        assert(s.distance_to(id) == from);
        if !s.ready(id) {
            lemma_first_ready_from(s, from + 1);
        }
    }
}

/// The next task is the nearest ready one behind the current task, round the
/// table; there is none exactly where no task but the current one is ready.
pub proof fn law_next_ready_is_nearest(s: SchedulerView)
    requires
        s.wf(),
    ensures
        match s.next_ready() {
            Some(next) => {
                &&& s.ready(next)
                &&& next != s.current
                &&& forall|id: int|
                    s.ready(id) && id != s.current ==> s.distance_to(next) <= s.distance_to(id)
            },
            None => forall|id: int| s.ready(id) ==> id == s.current,
        },
{
    lemma_first_ready_from(s, 1);
    assert forall|id: int| s.ready(id) && id != s.current implies s.next_ready() is Some
        && s.distance_to(s.next_ready()->0) <= s.distance_to(id) by {
        lemma_distance(s, id);
        assert(s.ready(s.id_at(s.distance_to(id))));
    }
    if s.next_ready() is Some {
        lemma_distance(s, s.next_ready()->0);
    }
}

/// A scheduler that starts without tasks is consistent.
pub proof fn law_empty_is_consistent()
    ensures
        (SchedulerView {
            tasks: Seq::<Task>::empty(),
            current: 0,
            started: false,
        }).consistent(),
{
}

/// A ready task that joins behind the others keeps the scheduler consistent.
pub proof fn law_joining_task_keeps_consistency(before: SchedulerView, after: SchedulerView)
    requires
        before.consistent(),
        after.tasks.len() == before.tasks.len() + 1,
        after.tasks.drop_last() == before.tasks,
        after.tasks.last().state == TaskState::Ready,
        after.current == before.current,
        after.started == before.started,
    ensures
        after.consistent(),
{
    assert forall|id: int| 0 <= id < before.tasks.len() implies #[trigger] after.tasks[id]
        == before.tasks[id] by {
        assert(after.tasks.drop_last()[id] == after.tasks[id]);
    }
}

/// Every switch keeps the scheduler consistent: at most one task other than
/// the idle one is running, and it is the current one.
pub proof fn law_switches_keep_consistency(
    s: SchedulerView,
    switch: Switch,
    frame: ExceptionFrame,
)
    requires
        s.consistent(),
        s.allows(switch),
    ensures
        s.after(switch, frame).0.consistent(),
{
    lemma_choices(s, frame);
}

/// The states that a switch chooses from, and what it finds there.
proof fn lemma_choices(s: SchedulerView, frame: ExceptionFrame)
    requires
        s.wf(),
    ensures
        s.preempted(frame).wf(),
        s.suspended(frame).wf(),
        s.with_state(s.current, TaskState::Dead).wf(),
        match s.preempted(frame).next_ready() {
            Some(id) => s.preempted(frame).ready(id) && id != s.current,
            None => true,
        },
        match s.suspended(frame).next_ready() {
            Some(id) => s.suspended(frame).ready(id) && id != s.current,
            None => true,
        },
        match s.with_state(s.current, TaskState::Dead).next_ready() {
            Some(id) => s.with_state(s.current, TaskState::Dead).ready(id) && id != s.current,
            None => true,
        },
        match s.next_ready() {
            Some(id) => s.ready(id) && id != s.current,
            None => true,
        },
{
    law_next_ready_is_nearest(s.preempted(frame));
    law_next_ready_is_nearest(s.suspended(frame));
    law_next_ready_is_nearest(s.with_state(s.current, TaskState::Dead));
    law_next_ready_is_nearest(s);
}

/// Loading what was saved gives the interrupted code back: its registers, its
/// stack pointer, its place and its status.
pub proof fn law_load_undoes_save(saved_at: ExceptionFrame, loaded_at: ExceptionFrame)
    ensures
        ({
            let frame = CpuContext::of(saved_at).loaded(loaded_at);
            &&& frame.x == saved_at.x
            &&& frame.sp == saved_at.sp
            &&& frame.elr == saved_at.elr
            &&& frame.spsr == saved_at.spsr
            &&& frame.esr == loaded_at.esr
            &&& frame.far == loaded_at.far
        }),
{
}

/// A switch neither adds, removes nor renames a task, and touches none but the
/// task that leaves the processor and the one that takes it.
pub proof fn law_switch_touches_two_tasks(
    s: SchedulerView,
    switch: Switch,
    frame: ExceptionFrame,
    id: int,
)
    requires
        s.wf(),
        s.allows(switch),
        0 <= id < s.tasks.len(),
    ensures
        s.after(switch, frame).0.tasks.len() == s.tasks.len(),
        s.after(switch, frame).0.tasks[id].id == s.tasks[id].id,
        id != s.current && id != s.after(switch, frame).0.current ==> s.after(
            switch,
            frame,
        ).0.tasks[id] == s.tasks[id],
{
    lemma_choices(s, frame);
}

/// A switch away from a running task keeps what the task was doing.
pub proof fn law_switch_saves_the_running_task(
    s: SchedulerView,
    switch: Switch,
    frame: ExceptionFrame,
)
    requires
        s.consistent(),
        s.started,
        s.current != 0,
        switch is Tick || switch is Yield,
        s.after(switch, frame).0.current != s.current,
    ensures
        s.after(switch, frame).0.ready(s.current),
        s.after(switch, frame).0.tasks[s.current].context == CpuContext::of(frame),
{
    lemma_choices(s, frame);
}

/// A ready task waits untouched until a switch gives it the processor, and
/// then goes on from the context that it waited with.
pub proof fn law_waiting_task_resumes_as_it_was(
    s: SchedulerView,
    switch: Switch,
    frame: ExceptionFrame,
    id: int,
)
    requires
        s.consistent(),
        s.allows(switch),
        s.ready(id),
    ensures
        s.after(switch, frame).0.current != id ==> s.after(switch, frame).0.tasks[id]
            == s.tasks[id],
        s.after(switch, frame).0.current == id ==> s.after(switch, frame).1
            == s.tasks[id].context.loaded(frame),
{
    lemma_choices(s, frame);
}

/// A waiting task is the same after any run of switches that passes it over.
proof fn lemma_waiting_task_is_kept(
    s: SchedulerView,
    events: Seq<(Switch, ExceptionFrame)>,
    id: int,
)
    requires
        s.consistent(),
        s.ready(id),
        s.passes_over(events, id),
    ensures
        s.after_events(events).consistent(),
        s.after_events(events).ready(id),
        s.after_events(events).tasks[id] == s.tasks[id],
    decreases events.len(),
{
    if events.len() > 0 {
        law_switches_keep_consistency(s, events[0].0, events[0].1);
        law_waiting_task_resumes_as_it_was(s, events[0].0, events[0].1, id);
        law_switch_touches_two_tasks(s, events[0].0, events[0].1, id);
        lemma_waiting_task_is_kept(s.after(events[0].0, events[0].1).0, events.skip(1), id);
    }
}

/// A task that a tick or a yield takes the processor from gets it back with its
/// registers as they were, however many switches pass it over in between, and
/// whatever frames they find.
pub proof fn law_preempted_task_goes_on_unharmed(
    s: SchedulerView,
    out: Switch,
    left: ExceptionFrame,
    between: Seq<(Switch, ExceptionFrame)>,
    back: Switch,
    found: ExceptionFrame,
)
    requires
        s.consistent(),
        s.started,
        s.current != 0,
        out is Tick || out is Yield,
        s.after(out, left).0.current != s.current,
        s.after(out, left).0.passes_over(between, s.current),
        s.after(out, left).0.after_events(between).allows(back),
        s.after(out, left).0.after_events(between).after(back, found).0.current == s.current,
    ensures
        s.after(out, left).0.after_events(between).after(back, found).1 == CpuContext::of(
            left,
        ).loaded(found),
{
    law_switches_keep_consistency(s, out, left);
    law_switch_saves_the_running_task(s, out, left);
    lemma_waiting_task_is_kept(s.after(out, left).0, between, s.current);
    law_waiting_task_resumes_as_it_was(
        s.after(out, left).0.after_events(between),
        back,
        found,
        s.current,
    );
}

/// A task that ended never runs again: no switch changes it or chooses it.
pub proof fn law_dead_task_stays_dead(
    s: SchedulerView,
    switch: Switch,
    frame: ExceptionFrame,
    id: int,
)
    requires
        s.consistent(),
        s.allows(switch),
        0 < id < s.tasks.len(),
        s.tasks[id].state == TaskState::Dead,
    ensures
        s.after(switch, frame).0.tasks[id] == s.tasks[id],
        s.after(switch, frame).0.current != id,
{
    lemma_choices(s, frame);
}

/// The task that exits is dead.
pub proof fn law_exit_kills_the_current_task(s: SchedulerView, frame: ExceptionFrame)
    requires
        s.wf(),
        s.current != 0,
    ensures
        s.after_exit(frame).0.tasks[s.current].state == TaskState::Dead,
        s.after_exit(frame).0.current != s.current,
{
    lemma_choices(s, frame);
}

/// The idle task gets the processor at a tick only where no task is ready and
/// none was running.
pub proof fn law_idle_runs_only_when_nothing_else_can(s: SchedulerView, frame: ExceptionFrame)
    requires
        s.consistent(),
        s.tasks.len() > 0,
        s.after_tick(frame).0.current == 0,
    ensures
        s.current == 0,
        forall|id: int| !s.ready(id),
{
    law_next_ready_is_nearest(s.preempted(frame));
    assert forall|id: int| !s.ready(id) by {
        assert(s.ready(id) ==> s.preempted(frame).ready(id));
    }
}

/// A ready task comes nearer to the processor at every switch after the start
/// until it has it.
pub proof fn law_ready_task_comes_nearer(
    s: SchedulerView,
    switch: Switch,
    frame: ExceptionFrame,
    id: int,
)
    requires
        s.wf(),
        s.started,
        s.allows(switch),
        !(switch is Start),
        s.ready(id),
        id != s.current,
    ensures
        ({
            let next = s.after(switch, frame).0;
            ||| next.current == id
            ||| {
                &&& next.wf()
                &&& next.started
                &&& next.ready(id)
                &&& 1 <= next.distance_to(id) < s.distance_to(id)
            }
        }),
{
    let waiting = match switch {
        Switch::Tick => s.preempted(frame),
        Switch::Yield => if s.current != 0 {
            s.suspended(frame)
        } else {
            s
        },
        _ => s.with_state(s.current, TaskState::Dead),
    };
    assert(waiting.wf());
    assert(waiting.ready(id));
    law_next_ready_is_nearest(waiting);
    let chosen = waiting.next_ready()->0;
    lemma_distance(waiting, id);
    lemma_distance(waiting, chosen);
    let next = s.after(switch, frame).0;
    assert(next == waiting.dispatched(chosen, frame).0);
    assert(waiting.distance_to(chosen) <= waiting.distance_to(id));
}

/// No ready task starves: one that lies `d` places behind the current task has
/// the processor after at most `d` ticks, so after fewer ticks than there are
/// tasks.
pub proof fn law_ready_task_runs_soon(s: SchedulerView, frames: Seq<ExceptionFrame>, id: int)
    requires
        s.wf(),
        s.started,
        s.ready(id),
        id != s.current,
        frames.len() >= s.distance_to(id),
    ensures
        s.distance_to(id) < s.tasks.len(),
        exists|ticks: int|
            0 < ticks <= s.distance_to(id) && (#[trigger] s.after_ticks(
                frames.take(ticks),
            )).current == id,
    decreases s.distance_to(id),
{
    lemma_distance(s, id);
    law_ready_task_comes_nearer(s, Switch::Tick, frames[0], id);
    let next = s.after_tick(frames[0]).0;
    if next.current == id {
        let one = frames.take(1);
        assert(one.skip(1) =~= Seq::<ExceptionFrame>::empty());
        assert(one[0] == frames[0]);
        reveal_with_fuel(SchedulerView::after_ticks, 2);
        assert(s.after_ticks(frames.take(1)).current == id);
    } else {
        let rest = frames.skip(1);
        law_ready_task_runs_soon(next, rest, id);
        let ticks = choose|ticks: int|
            0 < ticks <= next.distance_to(id) && (#[trigger] next.after_ticks(
                rest.take(ticks),
            )).current == id;
        let all = frames.take(ticks + 1);
        assert(all.skip(1) =~= rest.take(ticks));
        assert(all[0] == frames[0]);
        assert(s.after_ticks(frames.take(ticks + 1)).current == id);
    }
}

/// A running task that no other is ready to follow keeps the processor at a
/// tick and at a yield, and does not notice: the frame stays as it is.
pub proof fn law_lone_task_keeps_the_processor(
    s: SchedulerView,
    switch: Switch,
    frame: ExceptionFrame,
)
    requires
        s.consistent(),
        s.started,
        s.current != 0,
        switch is Tick || switch is Yield,
        forall|id: int| !s.ready(id),
    ensures
        s.after(switch, frame).0.current == s.current,
        s.after(switch, frame).0.tasks[s.current].state == TaskState::Running,
        s.after(switch, frame).1 == frame,
{
    law_next_ready_is_nearest(s.suspended(frame));
    assert forall|id: int| s.suspended(frame).ready(id) implies id == s.current by {
        if id != s.current {
            assert(s.ready(id));
        }
    }
}

/// No switch saves anything of the idle task: whenever it runs it starts from
/// the context that it was created with.
pub proof fn law_idle_task_always_starts_afresh(
    s: SchedulerView,
    switch: Switch,
    frame: ExceptionFrame,
)
    requires
        s.wf(),
        s.allows(switch),
        s.tasks.len() > 0,
    ensures
        s.after(switch, frame).0.tasks[0].context == s.tasks[0].context,
{
    lemma_choices(s, frame);
}

} // verus!
