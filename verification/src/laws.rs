//! What holds of the registry whatever the events are: counters add up, gauges
//! come back, a series is touched only through its own key, a reset is a reset,
//! and a scrape names every registered family.

use vstd::prelude::*;
use crate::collect::{with_disk, DiskStats};
use crate::declare::{full_name, Counter, Gauge};
use crate::family::{series_key, wrapped_step, CounterSeries, GaugeSeries};
use crate::registry::{
    exposition, family_names, header_at, lemma_names_before_holds, name_at, MetricsState,
    FAMILY_COUNT,
};

verus! {

/// The sum of a sequence of increments.
pub open spec fn total(deltas: Seq<u64>) -> nat
    decreases deltas.len(),
{
    if deltas.len() == 0 {
        0
    } else {
        total(deltas.drop_last()) + deltas.last() as nat
    }
}

/// The state after a sequence of increments of one series of a counter family.
pub open spec fn count_each(
    state: MetricsState,
    family: Counter,
    label_values: Seq<Seq<char>>,
    deltas: Seq<u64>,
) -> MetricsState
    decreases deltas.len(),
{
    if deltas.len() == 0 {
        state
    } else {
        count_each(state, family, label_values, deltas.drop_last()).count(
            family,
            label_values,
            deltas.last(),
        )
    }
}

/// An increment never lowers a counter, and adds exactly its amount, as long as the
/// sum fits in 64 bits.
pub proof fn lemma_count_adds(state: MetricsState, family: Counter, label_values: Seq<Seq<char>>, delta: u64)
    requires
        state.shaped(),
        state.counter_value(family, label_values) + delta <= u64::MAX,
    ensures
        state.count(family, label_values, delta).shaped(),
        state.count(family, label_values, delta).counter_value(family, label_values)
            == state.counter_value(family, label_values) + delta,
        state.count(family, label_values, delta).counter_value(family, label_values)
            >= state.counter_value(family, label_values),
{
}

/// After any sequence of increments of one series, the counter stands at what it
/// stood at before plus the sum of the increments, as long as that fits in 64 bits.
pub proof fn lemma_counter_sums(
    state: MetricsState,
    family: Counter,
    label_values: Seq<Seq<char>>,
    deltas: Seq<u64>,
)
    requires
        state.shaped(),
        state.counter_value(family, label_values) + total(deltas) <= u64::MAX,
    ensures
        count_each(state, family, label_values, deltas).shaped(),
        count_each(state, family, label_values, deltas).counter_value(family, label_values)
            == state.counter_value(family, label_values) + total(deltas),
    decreases deltas.len(),
{
    if deltas.len() > 0 {
        lemma_counter_sums(state, family, label_values, deltas.drop_last());
        lemma_count_adds(
            count_each(state, family, label_values, deltas.drop_last()),
            family,
            label_values,
            deltas.last(),
        );
    }
}

/// After a reset, a sequence of increments of one series leaves the counter at the
/// sum of the increments, as long as that fits in 64 bits.
pub proof fn lemma_counter_sums_since_reset(
    state: MetricsState,
    family: Counter,
    label_values: Seq<Seq<char>>,
    deltas: Seq<u64>,
)
    requires
        total(deltas) <= u64::MAX,
    ensures
        count_each(state.cleared(), family, label_values, deltas).counter_value(family, label_values)
            == total(deltas),
{
    lemma_counter_sums(state.cleared(), family, label_values, deltas);
}

/// An increment touches one series only: the one under the key of its label
/// values. Every other counter family, every gauge family and the registered names
/// stay as they are, and so does every series of the same family under another
/// key. Two tuples of label values that have the same key share a series:
/// `prometheus` keys a series by a hash of the values run together, so the tuples
/// ("ab", "c") and ("a", "bc") are one series to it.
pub proof fn lemma_count_elsewhere(state: MetricsState, family: Counter, label_values: Seq<Seq<char>>, delta: u64)
    requires
        state.shaped(),
    ensures
        state.count(family, label_values, delta).gauges == state.gauges,
        state.count(family, label_values, delta).registered == state.registered,
        forall|other: Counter|
            other != family ==> #[trigger] state.count(family, label_values, delta).counter(other)
                == state.counter(other),
        forall|key: u64|
            key != series_key(label_values) ==> {
                &&& #[trigger] state.count(family, label_values, delta).counter(family).contains_key(key)
                    == state.counter(family).contains_key(key)
                &&& state.count(family, label_values, delta).counter(family)[key] == state.counter(family)[key]
            },
        forall|other: Counter, others: Seq<Seq<char>>|
            other != family || series_key(others) != series_key(label_values) ==> #[trigger] state.count(
                family,
                label_values,
                delta,
            ).counter_value(other, others) == state.counter_value(other, others),
{
}

/// A step or a set of a gauge touches one series only: the one under the key of its
/// label values. Every other gauge family, every counter family and the registered
/// names stay as they are, and so does every series of the same family under
/// another key.
pub proof fn lemma_step_elsewhere(state: MetricsState, family: Gauge, label_values: Seq<Seq<char>>, delta: int, value: i64)
    requires
        state.shaped(),
    ensures
        state.step(family, label_values, delta).counters == state.counters,
        state.step(family, label_values, delta).registered == state.registered,
        state.assign(family, label_values, value).counters == state.counters,
        state.assign(family, label_values, value).registered == state.registered,
        forall|other: Gauge, others: Seq<Seq<char>>|
            other != family || series_key(others) != series_key(label_values) ==> #[trigger] state.step(
                family,
                label_values,
                delta,
            ).gauge_value(other, others) == state.gauge_value(other, others),
        forall|other: Gauge, others: Seq<Seq<char>>|
            other != family || series_key(others) != series_key(label_values) ==> #[trigger] state.assign(
                family,
                label_values,
                value,
            ).gauge_value(other, others) == state.gauge_value(other, others),
        forall|other: Gauge|
            other != family ==> #[trigger] state.step(family, label_values, delta).gauge(other)
                == state.gauge(other),
        forall|other: Gauge|
            other != family ==> #[trigger] state.assign(family, label_values, value).gauge(other)
                == state.gauge(other),
{
}

/// What a task reports of itself.
pub enum TaskEvent {
    /// The task started.
    Started,
    /// The task finished.
    Finished,
    /// The task failed.
    Failed,
}

/// The tasks whose number in progress a gauge keeps.
pub enum Task {
    /// The upload of a task.
    Upload,
    /// The download of a task.
    Download,
    /// The upload of a piece, which has no labels.
    UploadPiece,
}

impl TaskEvent {
    /// How far the event moves the number of tasks in progress.
    pub open spec fn delta(self) -> int {
        if self is Started {
            1
        } else {
            -1
        }
    }
}

impl Task {
    /// The gauge of the tasks in progress.
    pub open spec fn gauge(self) -> Gauge {
        match self {
            Task::Upload => Gauge::ConcurrentUploadTask,
            Task::Download => Gauge::ConcurrentDownloadTask,
            Task::UploadPiece => Gauge::ConcurrentUploadPiece,
        }
    }

    /// The state after a task with the given label values reported an event: what
    /// the event's function makes of the state.
    pub open spec fn after(self, state: MetricsState, label_values: Seq<Seq<char>>, event: TaskEvent) -> MetricsState {
        match self {
            Task::Upload => match event {
                TaskEvent::Started => state.count(Counter::UploadTask, label_values, 1).step(
                    Gauge::ConcurrentUploadTask,
                    label_values,
                    1,
                ),
                TaskEvent::Finished => state.step(Gauge::ConcurrentUploadTask, label_values, -1),
                TaskEvent::Failed => state.count(Counter::UploadTaskFailure, label_values, 1).step(
                    Gauge::ConcurrentUploadTask,
                    label_values,
                    -1,
                ),
            },
            Task::Download => match event {
                TaskEvent::Started => state.count(Counter::DownloadTask, label_values, 1).step(
                    Gauge::ConcurrentDownloadTask,
                    label_values,
                    1,
                ),
                TaskEvent::Finished => state.step(Gauge::ConcurrentDownloadTask, label_values, -1),
                TaskEvent::Failed => state.count(Counter::DownloadTaskFailure, label_values, 1).step(
                    Gauge::ConcurrentDownloadTask,
                    label_values,
                    -1,
                ),
            },
            Task::UploadPiece => match event {
                TaskEvent::Started => state.step(Gauge::ConcurrentUploadPiece, label_values, 1),
                TaskEvent::Finished => state.step(Gauge::ConcurrentUploadPiece, label_values, -1),
                TaskEvent::Failed => state.step(Gauge::ConcurrentUploadPiece, label_values, -1),
            },
        }
    }

    /// The state after tasks with one tuple of label values reported a sequence of
    /// events.
    pub open spec fn after_all(self, state: MetricsState, label_values: Seq<Seq<char>>, events: Seq<TaskEvent>) -> MetricsState
        decreases events.len(),
    {
        if events.len() == 0 {
            state
        } else {
            self.after(self.after_all(state, label_values, events.drop_last()), label_values, events.last())
        }
    }
}

/// The starts in a sequence of events less the events that end a task.
pub open spec fn in_progress(events: Seq<TaskEvent>) -> int
    decreases events.len(),
{
    if events.len() == 0 {
        0
    } else {
        in_progress(events.drop_last()) + events.last().delta()
    }
}

/// Two to the power of 64.
pub open spec fn two_to_64() -> int {
    0x1_0000_0000_0000_0000
}

/// An event moves the gauge of its task by one, up for a start and down for an end,
/// wrapping at 64 bits, and moves no other gauge and no gauge under another key.
pub proof fn lemma_event_moves(task: Task, state: MetricsState, label_values: Seq<Seq<char>>, event: TaskEvent)
    requires
        state.shaped(),
    ensures
        task.after(state, label_values, event).shaped(),
        task.after(state, label_values, event).registered == state.registered,
        task.after(state, label_values, event).gauge_value(task.gauge(), label_values) == wrapped_step(
            state.gauge_value(task.gauge(), label_values),
            event.delta(),
        ),
        forall|other: Gauge, others: Seq<Seq<char>>|
            other != task.gauge() || series_key(others) != series_key(label_values) ==> #[trigger] task.after(
                state,
                label_values,
                event,
            ).gauge_value(other, others) == state.gauge_value(other, others),
{
}

proof fn lemma_events_move_by_progress(task: Task, state: MetricsState, label_values: Seq<Seq<char>>, events: Seq<TaskEvent>)
    requires
        state.shaped(),
    ensures
        task.after_all(state, label_values, events).shaped(),
        (task.after_all(state, label_values, events).gauge_value(task.gauge(), label_values)
            - state.gauge_value(task.gauge(), label_values) - in_progress(events)) % two_to_64() == 0,
    decreases events.len(),
{
    if events.len() > 0 {
        let before = task.after_all(state, label_values, events.drop_last());
        lemma_events_move_by_progress(task, state, label_values, events.drop_last());
        lemma_event_moves(task, before, label_values, events.last());
        let delta = events.last().delta();
        let was = before.gauge_value(task.gauge(), label_values);
        let now = task.after(before, label_values, events.last()).gauge_value(task.gauge(), label_values);
        assert(now - was - delta == 0 || now - was - delta == two_to_64() || now - was - delta
            == -two_to_64());
    }
}

/// Gauge pairing: after a sequence of events of tasks with one tuple of label
/// values, in which as many tasks finished or failed as started, in whatever
/// order, the gauge of the tasks in progress stands where it stood before.
/// Wrapping at 64 bits does not change this. It holds of uploads, of downloads and,
/// with no label values, of the uploads of pieces.
pub proof fn lemma_tasks_pair(task: Task, state: MetricsState, label_values: Seq<Seq<char>>, events: Seq<TaskEvent>)
    requires
        state.shaped(),
        in_progress(events) == 0,
    ensures
        task.after_all(state, label_values, events).gauge_value(task.gauge(), label_values)
            == state.gauge_value(task.gauge(), label_values),
{
    lemma_events_move_by_progress(task, state, label_values, events);
}

/// A task that starts and then fails: the gauge of the tasks in progress is back
/// where it stood, for this tuple of label values and for every other; the count
/// of starts is as the start left it; and the count of failures is one more, as
/// long as that fits in 64 bits.
pub proof fn lemma_start_then_failure(state: MetricsState, label_values: Seq<Seq<char>>)
    requires
        state.shaped(),
    ensures
        forall|others: Seq<Seq<char>>| #[trigger]
            Task::Upload.after(
                Task::Upload.after(state, label_values, TaskEvent::Started),
                label_values,
                TaskEvent::Failed,
            ).gauge_value(Gauge::ConcurrentUploadTask, others) == state.gauge_value(
                Gauge::ConcurrentUploadTask,
                others,
            ),
        forall|others: Seq<Seq<char>>| #[trigger]
            Task::Download.after(
                Task::Download.after(state, label_values, TaskEvent::Started),
                label_values,
                TaskEvent::Failed,
            ).gauge_value(Gauge::ConcurrentDownloadTask, others) == state.gauge_value(
                Gauge::ConcurrentDownloadTask,
                others,
            ),
        Task::Upload.after(
            Task::Upload.after(state, label_values, TaskEvent::Started),
            label_values,
            TaskEvent::Failed,
        ).counter(Counter::UploadTask) == Task::Upload.after(
            state,
            label_values,
            TaskEvent::Started,
        ).counter(Counter::UploadTask),
        Task::Download.after(
            Task::Download.after(state, label_values, TaskEvent::Started),
            label_values,
            TaskEvent::Failed,
        ).counter(Counter::DownloadTask) == Task::Download.after(
            state,
            label_values,
            TaskEvent::Started,
        ).counter(Counter::DownloadTask),
        state.counter_value(Counter::UploadTaskFailure, label_values) < u64::MAX ==> Task::Upload.after(
            Task::Upload.after(state, label_values, TaskEvent::Started),
            label_values,
            TaskEvent::Failed,
        ).counter_value(Counter::UploadTaskFailure, label_values) == state.counter_value(
            Counter::UploadTaskFailure,
            label_values,
        ) + 1,
        state.counter_value(Counter::DownloadTaskFailure, label_values) < u64::MAX
            ==> Task::Download.after(
            Task::Download.after(state, label_values, TaskEvent::Started),
            label_values,
            TaskEvent::Failed,
        ).counter_value(Counter::DownloadTaskFailure, label_values) == state.counter_value(
            Counter::DownloadTaskFailure,
            label_values,
        ) + 1,
{
}

/// A second reset changes nothing.
pub proof fn lemma_reset_idempotent(state: MetricsState)
    ensures
        state.cleared().cleared() == state.cleared(),
{
}

/// After a reset every family is still registered and none has a series: every
/// counter and every gauge reads zero.
pub proof fn lemma_reset_keeps_families(state: MetricsState)
    ensures
        state.cleared().shaped(),
        state.cleared().registered == state.registered,
        forall|turn: nat| turn < FAMILY_COUNT ==> #[trigger] state.cleared().has_no_series_at(turn),
        forall|family: Counter| #[trigger] state.cleared().counter(family) == CounterSeries::empty(),
        forall|family: Gauge| #[trigger] state.cleared().gauge(family) == GaugeSeries::empty(),
        forall|family: Counter, label_values: Seq<Seq<char>>| #[trigger]
            state.cleared().counter_value(family, label_values) == 0,
        forall|family: Gauge, label_values: Seq<Seq<char>>| #[trigger]
            state.cleared().gauge_value(family, label_values) == 0,
{
}

/// Whether a text occurs in another, in one piece.
pub open spec fn occurs_in(part: Seq<char>, whole: Seq<char>) -> bool {
    exists|at: int|
        0 <= at && at + part.len() <= whole.len() && #[trigger] whole.subrange(at, at + part.len())
            == part
}

proof fn lemma_header_among(state: MetricsState, turn: nat, turns: nat) -> (at: int)
    requires
        turn < turns,
        state.is_silent(turn),
    ensures
        0 <= at,
        at + header_at(turn).len() <= state.silent_headers(turns).len(),
        state.silent_headers(turns).subrange(at, at + header_at(turn).len()) == header_at(turn),
    decreases turns,
{
    let part = header_at(turn);
    let shorter = state.silent_headers((turns - 1) as nat);
    if turns - 1 == turn {
        assert(state.silent_headers(turns) =~= shorter + part);
        assert((shorter + part).subrange(shorter.len() as int, (shorter.len() + part.len()) as int) =~= part);
        shorter.len() as int
    } else {
        let at = lemma_header_among(state, turn, (turns - 1) as nat);
        assert(state.silent_headers(turns).subrange(at, at + part.len()) =~= shorter.subrange(
            at,
            at + part.len(),
        ));
        at
    }
}

/// A scrape names every registered family: the header of one that has no series
/// stands in the text, in one piece. One that has a series is written by
/// `prometheus`.
pub proof fn lemma_silent_family_is_named(state: MetricsState, turn: nat)
    requires
        turn < FAMILY_COUNT,
        state.is_silent(turn),
    ensures
        occurs_in(header_at(turn), state.page()),
{
    let part = header_at(turn);
    let headers = state.silent_headers(FAMILY_COUNT as nat);
    let at = lemma_header_among(state, turn, FAMILY_COUNT as nat);
    let shifted = exposition(state).len() + at;
    assert(state.page().subrange(shifted, shifted + part.len()) =~= headers.subrange(at, at + part.len()));
}

/// A text that occurs in another occurs in it still when more text follows.
pub proof fn lemma_occurs_in_front(part: Seq<char>, whole: Seq<char>, rest: Seq<char>)
    requires
        occurs_in(part, whole),
    ensures
        occurs_in(part, whole + rest),
{
    let at = choose|at: int|
        0 <= at && at + part.len() <= whole.len() && #[trigger] whole.subrange(at, at + part.len())
            == part;
    assert((whole + rest).subrange(at, at + part.len()) =~= whole.subrange(at, at + part.len()));
}

/// The scrape right after a reset still names every registered family: none has a
/// series any more, so the body holds the header of each, whatever the two texts
/// are that the caller hands in. Only the two disk gauges may have a series again,
/// which the scrape's own probe of the disk sets; then `prometheus` writes them.
pub proof fn lemma_scrape_after_reset(
    state: MetricsState,
    disk: Option<DiskStats>,
    durations: Seq<char>,
    runtime: Seq<char>,
    turn: nat,
)
    requires
        turn < FAMILY_COUNT,
        state.registered.contains(full_name(name_at(turn))),
        disk is None || (turn != Gauge::DiskSpace.index() && turn != Gauge::DiskUsageSpace.index()),
    ensures
        with_disk(state.cleared(), disk).registered == state.registered,
        with_disk(state.cleared(), disk).counters == state.cleared().counters,
        with_disk(state.cleared(), disk).is_silent(turn),
        occurs_in(header_at(turn), with_disk(state.cleared(), disk).page() + durations + runtime),
{
    let page = with_disk(state.cleared(), disk).page();
    lemma_silent_family_is_named(with_disk(state.cleared(), disk), turn);
    lemma_occurs_in_front(header_at(turn), page, durations);
    lemma_occurs_in_front(header_at(turn), page + durations, runtime);
}

/// Families are registered once: in a state in which they are registered, not one
/// of the names is free any more, so that the families cannot be registered again.
pub proof fn lemma_registered_once(state: MetricsState)
    ensures
        !state.registered.union(family_names()).disjoint(family_names()),
        forall|turn: nat|
            turn < FAMILY_COUNT ==> state.registered.union(family_names()).contains(
                #[trigger] full_name(name_at(turn)),
            ),
{
    assert forall|turn: nat| turn < FAMILY_COUNT implies family_names().contains(
        #[trigger] full_name(name_at(turn)),
    ) by {
        lemma_names_before_holds(FAMILY_COUNT as nat, turn);
    }
    assert(family_names().contains(full_name(name_at(0))));
}

} // verus!
