//! What each switch does, told by the tasks and the frame alone, in every valid
//! state of the scheduler.
use crate::exception::ExceptionFrame;
use crate::scheduler::{Scheduler, SchedulerView};
use crate::scheduler_laws;
use crate::task::{CpuContext, Task, TaskState, TaskTable, MAX_TASKS};
use vstd::prelude::*;

verus! {

/// The exception that found `before` returns through `after` into `context`.
pub open spec fn returns_into(
    after: ExceptionFrame,
    context: CpuContext,
    before: ExceptionFrame,
) -> bool {
    &&& after.x@ == context.x@
    &&& after.sp == context.sp
    &&& after.elr == context.pc
    &&& after.spsr == context.spsr
    &&& after.esr == before.esr
    &&& after.far == before.far
}

/// `context` holds what `frame` shows of the interrupted code.
pub open spec fn holds(context: CpuContext, frame: ExceptionFrame) -> bool {
    &&& context.x@ == frame.x@
    &&& context.sp == frame.sp
    &&& context.pc == frame.elr
    &&& context.spsr == frame.spsr
}

/// Task `id`, other than the idle and the current one, waits for the processor.
pub open spec fn waits(s: SchedulerView, id: int) -> bool {
    0 < id < s.tasks.len() && id != s.current && s.tasks[id].state == TaskState::Ready
}

/// The places from the current task forward to task `id`, where the last task
/// is followed by the first.
pub open spec fn places_to(s: SchedulerView, id: int) -> int {
    if id > s.current {
        id - s.current
    } else {
        s.tasks.len() - s.current + id
    }
}

/// Task `id` waits, and no other waiting task is nearer behind the current one.
pub open spec fn is_next(s: SchedulerView, id: int) -> bool {
    &&& waits(s, id)
    &&& forall|other: int| #[trigger] waits(s, other) ==> places_to(s, id) <= places_to(s, other)
}

/// The tasks keep their number and their ids, and all but two are untouched.
pub open spec fn others_untouched(s: SchedulerView, after: SchedulerView) -> bool {
    &&& after.tasks.len() == s.tasks.len()
    &&& forall|id: int|
        0 <= id < s.tasks.len() ==> (#[trigger] after.tasks[id]).id == s.tasks[id].id
    &&& forall|id: int|
        0 <= id < s.tasks.len() && id != s.current && id != after.current ==> #[trigger] after.tasks[id]
            == s.tasks[id]
}

/// The state is valid where the current task is the idle one or a task of the
/// table, and in no other case.
pub proof fn law_valid_states(s: SchedulerView)
    ensures
        s.wf() <==> s.current == 0 || 0 < s.current < s.tasks.len(),
{
}

/// A table is valid where its first `count` slots hold the tasks of those ids
/// and the slots behind them are empty, and in no other case.
pub proof fn law_valid_tables(table: TaskTable)
    ensures
        table.wf() <==> {
            &&& table.count <= MAX_TASKS
            &&& forall|i: int|
                0 <= i < table.count ==> (#[trigger] table.tasks@[i]) is Some
                    && table.tasks@[i]->0.id == i
            &&& forall|i: int|
                table.count <= i < MAX_TASKS ==> (#[trigger] table.tasks@[i]) is None
        },
{
    if table.wf() {
        assert forall|i: int| 0 <= i < table.count implies (#[trigger] table.tasks@[i]) is Some
            && table.tasks@[i]->0.id == i by {}
    }
}

/// What is said of a scheduler is said of its fields: its tasks are those in the
/// first slots of its table.
pub proof fn law_view_shows_the_fields(scheduler: Scheduler)
    requires
        scheduler.wf(),
    ensures
        scheduler.tasks.wf(),
        scheduler@.tasks == scheduler.tasks@,
        scheduler.tasks@.len() == scheduler.tasks.count,
        forall|i: int|
            0 <= i < scheduler.tasks.count ==> scheduler.tasks.tasks@[i] == Some(
                #[trigger] scheduler.tasks@[i],
            ),
        scheduler@.current == scheduler.current,
        scheduler@.started == scheduler.started,
{
    assert forall|i: int| 0 <= i < scheduler.tasks.count implies scheduler.tasks.tasks@[i] == Some(
        #[trigger] scheduler.tasks@[i],
    ) by {
        assert(scheduler.tasks.tasks@[i] is Some);
    }
}

/// A scheduler is valid where its table is and its current task is the idle one
/// or one of the table, and in no other case.
pub proof fn law_valid_schedulers(scheduler: Scheduler)
    ensures
        scheduler.wf() <==> scheduler.tasks.wf() && (scheduler.current == 0 || scheduler.current
            < scheduler.tasks.count),
{
}

/// The task that is found next is a waiting one, and the nearest; none is found
/// exactly where none waits.
pub proof fn law_search_finds_the_nearest(s: SchedulerView)
    requires
        s.wf(),
    ensures
        match s.next_ready() {
            Some(id) => is_next(s, id),
            None => forall|id: int| !waits(s, id),
        },
{
    scheduler_laws::law_next_ready_is_nearest(s);
    match s.next_ready() {
        Some(next) => {
            assert forall|other: int| #[trigger] waits(s, other) implies places_to(s, next)
                <= places_to(s, other) by {
                assert(s.ready(other));
            }
        },
        None => {
            assert forall|id: int| !waits(s, id) by {
                if waits(s, id) {
                    assert(s.ready(id));
                }
            }
        },
    }
}

/// Saving takes every register of the interrupted code, and loading gives every
/// register of the context to the frame.
pub proof fn law_context_keeps_every_register(
    frame: ExceptionFrame,
    context: CpuContext,
)
    ensures
        holds(CpuContext::of(frame), frame),
        returns_into(context.loaded(frame), context, frame),
{
}

/// The first start gives the processor to task 1, or to the idle task where
/// there is no other, and it goes on from its own context. Nothing else changes;
/// and a second start changes nothing at all.
pub proof fn law_start_outcome(s: SchedulerView, frame: ExceptionFrame)
    requires
        s.wf(),
    ensures
        ({
            let (after, now) = s.after_start(frame);
            let first = if s.tasks.len() > 1 {
                1int
            } else {
                0
            };
            &&& s.started ==> after == s && now == frame
            &&& !s.started ==> {
                &&& after.started
                &&& after.current == first
                &&& after.tasks.len() == s.tasks.len()
                &&& forall|id: int|
                    0 <= id < s.tasks.len() && id != first ==> #[trigger] after.tasks[id]
                        == s.tasks[id]
            }
            &&& !s.started && s.tasks.len() > 0 ==> {
                &&& after.tasks[first] == (Task { state: TaskState::Running, ..s.tasks[first] })
                &&& returns_into(now, s.tasks[first].context, frame)
            }
            &&& s.tasks.len() == 0 ==> now == frame
        }),
{
}

/// At a tick after the start the nearest waiting task takes the processor. Where
/// none waits the current task goes on if it was running or ready, and the idle
/// task runs if it was neither.
///
/// A running task that leaves is ready and holds what the frame shows; one that
/// was not running is left as it was. The task that takes the processor is
/// running, and the exception returns into what it holds.
pub proof fn law_tick_outcome(s: SchedulerView, frame: ExceptionFrame)
    requires
        s.wf(),
        s.started,
        s.tasks.len() > 0,
    ensures
        ({
            let (after, now) = s.after_tick(frame);
            let next = after.current;
            let left = s.tasks[s.current];
            &&& after.started
            &&& others_untouched(s, after)
            &&& 0 <= next < s.tasks.len()
            &&& (exists|id: int| waits(s, id)) ==> is_next(s, next)
            &&& (forall|id: int| !waits(s, id)) ==> next == if s.current != 0 && (left.state
                == TaskState::Running || left.state == TaskState::Ready) {
                s.current
            } else {
                0
            }
            &&& after.tasks[next].state == TaskState::Running
            &&& returns_into(now, after.tasks[next].context, frame)
            &&& next != s.current ==> after.tasks[next].context == s.tasks[next].context
            &&& s.current != 0 && left.state == TaskState::Running ==> holds(
                after.tasks[s.current].context,
                frame,
            )
            &&& s.current != 0 && left.state == TaskState::Running && next != s.current
                ==> after.tasks[s.current].state == TaskState::Ready
            &&& s.current == 0 || left.state != TaskState::Running
                ==> after.tasks[s.current].context == left.context
            &&& (s.current == 0 || left.state != TaskState::Running) && next != s.current
                ==> after.tasks[s.current].state == left.state
        }),
{
    let waiting = s.preempted(frame);
    law_search_finds_the_nearest(waiting);
    lemma_same_waiting(s, waiting);
}

/// A tick of a scheduler without tasks changes nothing, and the first tick of
/// one with tasks is its start.
pub proof fn law_first_tick_starts(s: SchedulerView, frame: ExceptionFrame)
    ensures
        s.tasks.len() == 0 ==> s.after_tick(frame) == (s, frame),
        s.tasks.len() > 0 && !s.started ==> s.after_tick(frame) == s.after_start(frame),
{
}

/// At a yield the nearest waiting task takes the processor, and where none waits
/// the current task goes on without noticing.
///
/// A task other than the idle one that leaves is ready and holds what the frame
/// shows. The task that takes the processor is running, and the exception
/// returns into what it holds.
pub proof fn law_yield_outcome(s: SchedulerView, frame: ExceptionFrame)
    requires
        s.wf(),
    ensures
        ({
            let (after, now) = s.after_yield(frame);
            let next = after.current;
            let left = s.tasks[s.current];
            &&& after.started == s.started
            &&& others_untouched(s, after)
            &&& (exists|id: int| waits(s, id)) ==> is_next(s, next)
            &&& (forall|id: int| !waits(s, id)) ==> next == s.current
            &&& next == s.current ==> now == frame
            &&& next != s.current ==> {
                &&& after.tasks[next] == (Task { state: TaskState::Running, ..s.tasks[next] })
                &&& returns_into(now, s.tasks[next].context, frame)
            }
            &&& s.current != 0 ==> {
                &&& holds(after.tasks[s.current].context, frame)
                &&& after.tasks[s.current].state == if next == s.current {
                    TaskState::Running
                } else {
                    TaskState::Ready
                }
            }
            &&& s.current == 0 && s.tasks.len() > 0 ==> after.tasks[0] == s.tasks[0]
        }),
{
    let waiting = if s.current != 0 {
        s.suspended(frame)
    } else {
        s
    };
    law_search_finds_the_nearest(waiting);
    lemma_same_waiting(s, waiting);
}

/// At an exit the nearest waiting task takes the processor, wherever in the
/// table it stands, and the idle task only where none waits. The task that takes
/// the processor is running and goes on from its own context; the one that ends
/// is dead.
pub proof fn law_exit_outcome(s: SchedulerView, frame: ExceptionFrame)
    requires
        s.wf(),
        s.current != 0,
    ensures
        ({
            let (after, now) = s.after_exit(frame);
            let next = after.current;
            &&& after.started == s.started
            &&& others_untouched(s, after)
            &&& (exists|id: int| waits(s, id)) ==> is_next(s, next)
            &&& (forall|id: int| !waits(s, id)) ==> next == 0
            &&& after.tasks[next] == (Task { state: TaskState::Running, ..s.tasks[next] })
            &&& returns_into(now, s.tasks[next].context, frame)
            &&& after.tasks[s.current] == (Task { state: TaskState::Dead, ..s.tasks[s.current] })
        }),
{
    let waiting = s.with_state(s.current, TaskState::Dead);
    law_search_finds_the_nearest(waiting);
    lemma_same_waiting(s, waiting);
}

/// The same tasks wait in states that differ in the current task alone.
proof fn lemma_same_waiting(s: SchedulerView, other: SchedulerView)
    requires
        other.current == s.current,
        other.tasks.len() == s.tasks.len(),
        forall|id: int|
            0 <= id < s.tasks.len() && id != s.current ==> #[trigger] other.tasks[id]
                == s.tasks[id],
    ensures
        forall|id: int| #[trigger] waits(s, id) == waits(other, id),
        forall|id: int| #[trigger] is_next(s, id) == is_next(other, id),
        forall|id: int| #[trigger] waits(other, id) == waits(s, id),
        forall|id: int| #[trigger] is_next(other, id) == is_next(s, id),
{
    assert forall|id: int| #[trigger] waits(s, id) == waits(other, id) by {
        if 0 <= id < s.tasks.len() && id != s.current {
            assert(other.tasks[id] == s.tasks[id]);
        }
    }
    assert forall|id: int| #[trigger] is_next(s, id) == is_next(other, id) by {
        if is_next(s, id) {
            assert forall|o: int| #[trigger] waits(other, o) implies places_to(other, id)
                <= places_to(other, o) by {
                assert(waits(s, o));
            }
        }
        if is_next(other, id) {
            assert forall|o: int| #[trigger] waits(s, o) implies places_to(s, id) <= places_to(
                s,
                o,
            ) by {
                assert(waits(other, o));
            }
        }
    }
}

} // verus!
