//! Where tasks run, and the record of when they ran.

use crate::text::{compare_text, TextOrder};
use std::collections::VecDeque;
use vstd::prelude::*;

verus! {

/// How urgent a task is.
#[derive(Clone, Copy, Debug, PartialEq, Eq, Structural)]
pub enum Priority {
    RealtimeAudio,
    High,
    Medium,
    Low,
}

/// The priority of one of the system's global queues.
#[derive(Clone, Copy, Debug, PartialEq, Eq, Structural)]
pub enum QueuePriority {
    High,
    Default,
    Low,
}

/// Hands tasks to the queues of the system. It keeps no state of its own.
#[derive(Clone, Copy, Debug, Default, PartialEq, Eq)]
pub struct IosDispatcher;

/// The length of a delay in nanoseconds.
pub open spec fn nanoseconds(seconds: u64, subsecond_nanos: u32) -> int {
    seconds * 1_000_000_000 + subsecond_nanos
}

/// The queue for a task of the given priority. Real-time audio has none: such
/// work gets a thread of its own.
pub open spec fn queue_for(priority: Priority) -> Option<QueuePriority> {
    match priority {
        Priority::RealtimeAudio => None,
        Priority::High => Some(QueuePriority::High),
        Priority::Medium => Some(QueuePriority::Default),
        Priority::Low => Some(QueuePriority::Low),
    }
}

impl IosDispatcher {
    /// Makes the dispatcher.
    pub fn new() -> (dispatcher: IosDispatcher)
        ensures
            dispatcher == IosDispatcher,
    {
        IosDispatcher
    }

    /// The global queue on which a task of the given priority runs.
    pub fn dispatch(&self, priority: Priority) -> (queue: QueuePriority)
        requires
            priority != Priority::RealtimeAudio,
        ensures
            queue_for(priority) == Some(queue),
    {
        match priority {
            Priority::High => QueuePriority::High,
            Priority::Medium => QueuePriority::Default,
            _ => QueuePriority::Low,
        }
    }

    /// The global queue on which a delayed task runs, and the delay in
    /// nanoseconds. The delay is reduced to 64 bits in two's complement, so one
    /// of more than some 292 years comes out wrong.
    pub fn dispatch_after(&self, seconds: u64, subsecond_nanos: u32) -> (delayed: (
        QueuePriority,
        i64,
    ))
        ensures
            delayed.0 == QueuePriority::High,
            (delayed.1 - nanoseconds(seconds, subsecond_nanos)) % 0x1_0000_0000_0000_0000 == 0,
    {
        let nanos: u128 = (seconds as u128) * 1_000_000_000 + subsecond_nanos as u128;
        let low: u64 = (nanos % 0x1_0000_0000_0000_0000) as u64;
        let delay: i64 = if low <= 0x7fff_ffff_ffff_ffff {
            low as i64
        } else {
            -((0xffff_ffff_ffff_ffff - low) as i64) - 1
        };
        (QueuePriority::High, delay)
    }
}

/// A delay that fits in 63 bits is kept as it is, to the nanosecond.
pub proof fn law_ordinary_delays_are_exact(seconds: u64, subsecond_nanos: u32, delay: i64)
    requires
        seconds * 1_000_000_000 + subsecond_nanos <= i64::MAX,
        (delay - nanoseconds(seconds, subsecond_nanos)) % 0x1_0000_0000_0000_0000 == 0,
    ensures
        delay == seconds * 1_000_000_000 + subsecond_nanos,
{
}

/// Every delay, however long, agrees with its length in nanoseconds in the low 64
/// bits.
pub proof fn law_delays_agree_in_the_low_bits(seconds: u64, subsecond_nanos: u32, delay: i64)
    requires
        (delay - nanoseconds(seconds, subsecond_nanos)) % 0x1_0000_0000_0000_0000 == 0,
    ensures
        (delay - (seconds * 1_000_000_000 + subsecond_nanos)) % 0x1_0000_0000_0000_0000 == 0,
{
}

/// A longer delay never comes out shorter, and a difference of whole seconds and
/// nanoseconds is kept.
pub proof fn law_delays_keep_their_distance(
    seconds: u64,
    subsecond_nanos: u32,
    delay: i64,
    longer_seconds: u64,
    longer_subsecond_nanos: u32,
    longer_delay: i64,
)
    requires
        seconds * 1_000_000_000 + subsecond_nanos <= longer_seconds * 1_000_000_000
            + longer_subsecond_nanos <= i64::MAX,
        (delay - nanoseconds(seconds, subsecond_nanos)) % 0x1_0000_0000_0000_0000 == 0,
        (longer_delay - nanoseconds(longer_seconds, longer_subsecond_nanos))
            % 0x1_0000_0000_0000_0000 == 0,
    ensures
        0 <= delay <= longer_delay,
        longer_delay - delay == (longer_seconds - seconds) * 1_000_000_000 + (
        longer_subsecond_nanos - subsecond_nanos),
{
    law_ordinary_delays_are_exact(seconds, subsecond_nanos, delay);
    law_ordinary_delays_are_exact(longer_seconds, longer_subsecond_nanos, longer_delay);
}

/// Work that is more urgent never goes to a slower queue than work that is less,
/// no two priorities share a queue, and only real-time audio has none.
pub proof fn law_queues_follow_urgency(priority: Priority)
    ensures
        queue_for(priority) is None <==> priority == Priority::RealtimeAudio,
        queue_for(priority) == Some(QueuePriority::High) <==> priority == Priority::High,
        queue_for(priority) == Some(QueuePriority::Default) <==> priority == Priority::Medium,
        queue_for(priority) == Some(QueuePriority::Low) <==> priority == Priority::Low,
{
}

/// The place in the source that spawned a task.
#[derive(Clone, Copy, Debug, PartialEq, Eq)]
pub struct TaskLocation {
    pub file: &'static str,
    pub line: u32,
    pub column: u32,
}

/// When a task ran. `T` is the type of a moment in time.
#[derive(Clone, Copy, Debug, PartialEq, Eq)]
pub struct TaskTiming<T> {
    pub location: TaskLocation,
    pub start: T,
    pub end: Option<T>,
}

/// The record of one thread.
#[derive(Clone, Debug, PartialEq, Eq)]
pub struct ThreadTimings<T> {
    pub thread_name: Option<String>,
    pub timings: VecDeque<TaskTiming<T>>,
    pub total_pushed: u64,
}

/// A copy of the record of one thread. `I` is the type of a thread's identity.
#[derive(Clone, Debug, PartialEq, Eq)]
pub struct ThreadTaskTimings<I, T> {
    pub thread_name: Option<String>,
    pub thread_id: I,
    pub timings: Vec<TaskTiming<T>>,
    pub total_pushed: u64,
}

/// Whether two tasks were spawned at the same place.
pub open spec fn same_location(a: TaskLocation, b: TaskLocation) -> bool {
    a.file@ == b.file@ && a.line == b.line && a.column == b.column
}

/// The record once a task has started: a task from the place of the latest one
/// is not recorded again.
pub open spec fn after_start<T>(
    timings: Seq<TaskTiming<T>>,
    location: TaskLocation,
    start: T,
) -> Seq<TaskTiming<T>> {
    if timings.len() > 0 && same_location(timings.last().location, location) {
        timings
    } else {
        timings.push(TaskTiming { location, start, end: None })
    }
}

/// The record once a task has ended: the latest entry has its end.
pub open spec fn after_end<T>(timings: Seq<TaskTiming<T>>, end: T) -> Seq<TaskTiming<T>> {
    if timings.len() > 0 {
        timings.update(
            timings.len() - 1,
            TaskTiming {
                location: timings.last().location,
                start: timings.last().start,
                end: Some(end),
            },
        )
    } else {
        timings
    }
}

/// Whether no two neighbouring entries come from the same place.
pub open spec fn neighbours_differ<T>(timings: Seq<TaskTiming<T>>) -> bool {
    forall|i: int, j: int|
        0 <= i && j == i + 1 && j < timings.len() ==> !same_location(
            #[trigger] timings[i].location,
            #[trigger] timings[j].location,
        )
}

impl TaskLocation {
    /// Whether two tasks were spawned at the same place.
    pub fn is_same(&self, other: &TaskLocation) -> (same: bool)
        ensures
            same == same_location(*self, *other),
    {
        proof {
            crate::text::law_text_less_is_irreflexive(self.file@);
        }
        match compare_text(self.file, other.file) {
            TextOrder::Equal => self.line == other.line && self.column == other.column,
            _ => false,
        }
    }
}

impl<T> ThreadTimings<T> {
    /// Records that a task starts.
    pub fn task_started(&mut self, location: TaskLocation, start: T)
        ensures
            final(self).timings@ == after_start(old(self).timings@, location, start),
            final(self).thread_name == old(self).thread_name,
            final(self).total_pushed == old(self).total_pushed,
    {
        let len: usize = self.timings.len();
        if len > 0 && self.timings[len - 1].location.is_same(&location) {
            return;
        }
        self.timings.push_back(TaskTiming { location, start, end: None });
    }

    /// Records that the task which runs has ended.
    pub fn task_ended(&mut self, end: T)
        ensures
            final(self).timings@ == after_end(old(self).timings@, end),
            final(self).thread_name == old(self).thread_name,
            final(self).total_pushed == old(self).total_pushed,
    {
        match self.timings.pop_back() {
            Some(latest) => {
                self.timings.push_back(
                    TaskTiming { location: latest.location, start: latest.start, end: Some(end) },
                );
            },
            None => {},
        }
    }
}

impl<T: Copy> ThreadTimings<T> {
    /// Copies the record, as that of the thread `thread_id`.
    pub fn get_current_thread_timings<I>(&self, thread_id: I) -> (copy: ThreadTaskTimings<I, T>)
        ensures
            copy.thread_name == self.thread_name,
            copy.thread_id == thread_id,
            copy.timings@ == self.timings@,
            copy.total_pushed == self.total_pushed,
    {
        let mut timings: Vec<TaskTiming<T>> = Vec::with_capacity(self.timings.len());
        let mut i: usize = 0;
        while i < self.timings.len()
            invariant
                i <= self.timings.len(),
                timings@ == self.timings@.take(i as int),
            decreases self.timings.len() - i,
        {
            timings.push(self.timings[i]);
            i = i + 1;
        }
        assert(self.timings@.take(i as int) =~= self.timings@);
        ThreadTaskTimings {
            thread_name: self.thread_name.clone(),
            thread_id,
            timings,
            total_pushed: self.total_pushed,
        }
    }
}

/// Neither the start nor the end of a task puts two entries from the same place
/// next to each other.
pub proof fn law_neighbours_stay_different<T>(
    timings: Seq<TaskTiming<T>>,
    location: TaskLocation,
    start: T,
    end: T,
)
    requires
        neighbours_differ(timings),
    ensures
        neighbours_differ(after_start(timings, location, start)),
        neighbours_differ(after_end(timings, end)),
{
    let started = after_start(timings, location, start);
    assert forall|i: int, j: int|
        0 <= i && j == i + 1 && j < started.len() implies !same_location(
        #[trigger] started[i].location,
        #[trigger] started[j].location,
    ) by {
        if j < timings.len() {
            assert(started[i] == timings[i] && started[j] == timings[j]);
        }
    }
    let ended = after_end(timings, end);
    assert forall|i: int, j: int|
        0 <= i && j == i + 1 && j < ended.len() implies !same_location(
        #[trigger] ended[i].location,
        #[trigger] ended[j].location,
    ) by {
        assert(ended[i].location == timings[i].location);
        assert(ended[j].location == timings[j].location);
    }
}

/// A task that ran is the latest entry of the record, with the moment it ended,
/// and all earlier entries are as they were.
pub proof fn law_finished_task_is_latest<T>(
    timings: Seq<TaskTiming<T>>,
    location: TaskLocation,
    start: T,
    end: T,
)
    ensures
        ({
            let record = after_end(after_start(timings, location, start), end);
            &&& record.len() > 0
            &&& same_location(record.last().location, location)
            &&& record.last().end == Some(end)
            &&& record.len() <= timings.len() + 1
            &&& forall|i: int|
                0 <= i < record.len() - 1 ==> #[trigger] record[i] == timings[i]
        }),
{
}

/// Two tasks come from the same place exactly where file, line and column all
/// agree.
pub proof fn law_places_differ_in_file_line_or_column(a: TaskLocation, b: TaskLocation)
    ensures
        a.file@ != b.file@ ==> !same_location(a, b),
        a.line != b.line ==> !same_location(a, b),
        a.column != b.column ==> !same_location(a, b),
        a.file@ == b.file@ && a.line == b.line && a.column == b.column ==> same_location(a, b),
{
}

/// A task that starts adds one entry, which has no end yet, behind all others,
/// unless the latest entry is from the same place: then nothing changes.
pub proof fn law_start_adds_one_entry<T>(
    timings: Seq<TaskTiming<T>>,
    location: TaskLocation,
    start: T,
)
    ensures
        ({
            let record = after_start(timings, location, start);
            let again = timings.len() > 0 && timings[timings.len() - 1].location.file@
                == location.file@ && timings[timings.len() - 1].location.line == location.line
                && timings[timings.len() - 1].location.column == location.column;
            &&& again ==> record == timings
            &&& !again ==> {
                &&& record.len() == timings.len() + 1
                &&& forall|i: int| 0 <= i < timings.len() ==> #[trigger] record[i] == timings[i]
                &&& record[timings.len() as int].location == location
                &&& record[timings.len() as int].start == start
                &&& record[timings.len() as int].end is None
            }
        }),
{
}

/// A task that ends sets the end of the latest entry, and changes nothing else.
pub proof fn law_end_is_that_of_the_latest_entry<T>(timings: Seq<TaskTiming<T>>, end: T)
    ensures
        ({
            let record = after_end(timings, end);
            &&& record.len() == timings.len()
            &&& forall|i: int| 0 <= i < timings.len() - 1 ==> #[trigger] record[i] == timings[i]
            &&& timings.len() > 0 ==> {
                &&& record[timings.len() - 1].location == timings[timings.len() - 1].location
                &&& record[timings.len() - 1].start == timings[timings.len() - 1].start
                &&& record[timings.len() - 1].end == Some(end)
            }
        }),
{
}

} // verus!
