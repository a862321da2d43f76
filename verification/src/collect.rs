//! The events that the client reports, and what each does to the registry.
//!
//! Label values are taken as they come: nothing checks them against a list. The
//! task type is written in decimal.
//!
//! A series is found by the key of its label values, which `prometheus` makes from
//! the values run together. An event touches the one series under the key of its
//! label values and leaves every series under another key alone. Two tuples with
//! the same key, such as ("ab", "c") and ("a", "bc"), share a series.

use std::time::Duration;
use vstd::prelude::*;
use vstd::string::StringExecFns;
use crate::declare::{Counter, Gauge, Histogram};
use crate::registry::{MetricRegistry, MetricsState};
use crate::size::{size_level, TaskSize};
use crate::text::{decimal, decimal_string, labels0, labels1, labels2, labels3, labels4};

verus! {

/// The length of a duration in nanoseconds.
pub uninterp spec fn duration_nanos(duration: Duration) -> u128;

/// `Duration::as_nanos`: the whole duration in nanoseconds.
pub assume_specification[ Duration::as_nanos ](duration: &Duration) -> (nanos: u128)
    ensures
        nanos == duration_nanos(*duration),
;

/// `Duration::as_millis`: the whole milliseconds that the duration holds.
pub assume_specification[ Duration::as_millis ](duration: &Duration) -> (millis: u128)
    ensures
        millis == duration_nanos(*duration) / NANOS_PER_MILLI,
;

/// The nanoseconds in a millisecond.
pub const NANOS_PER_MILLI: u128 = 1_000_000;

/// A task of size level 1 that takes longer than this many milliseconds is slow.
pub const LEVEL1_DURATION_THRESHOLD_MILLIS: u128 = 500;

/// A range of bytes within a task's content.
#[derive(Debug, Clone, Copy, PartialEq, Eq, Structural)]
pub struct Range {
    /// The offset of the first byte.
    pub start: u64,
    /// The number of bytes.
    pub length: u64,
}

/// What a probe of the storage disk found.
#[derive(Debug, Clone, Copy, PartialEq, Eq, Structural)]
pub struct DiskStats {
    /// The size of the disk in bytes.
    pub total_space: u64,
    /// The bytes that are free.
    pub available_space: u64,
}

/// A duration to be recorded in a histogram family.
#[derive(Debug)]
pub struct Observation {
    /// The family that records it.
    pub histogram: Histogram,
    /// The label values of the series.
    pub label_values: Vec<String>,
    /// The duration in whole milliseconds.
    pub millis: u128,
    /// Whether this is a task of size level 1 that took longer than the threshold,
    /// which is worth a line in the log.
    pub slow: bool,
}

/// The label values of a tuple of strings.
pub open spec fn texts(strings: Seq<String>) -> Seq<Seq<char>> {
    Seq::new(strings.len(), |i: int| strings[i]@)
}

/// The whole milliseconds of a duration.
pub open spec fn millis_of(cost: Duration) -> u128 {
    duration_nanos(cost) / NANOS_PER_MILLI
}

/// Whether a task of a size took so long that it is slow: its size level is 1 and
/// it took longer than the threshold.
pub open spec fn is_slow(size: nat, cost: Duration) -> bool {
    size_level(size) == 1 && duration_nanos(cost) > LEVEL1_DURATION_THRESHOLD_MILLIS * NANOS_PER_MILLI
}

/// The bytes that a download transferred: the length of the range where one was
/// asked for, the content length where none was.
pub open spec fn effective_size(content_length: u64, range: Option<Range>) -> u64 {
    match range {
        Some(range) => range.length,
        None => content_length,
    }
}

/// The bytes that a download transferred.
pub fn transferred_size(content_length: u64, range: Option<Range>) -> (size: u64)
    ensures
        size == effective_size(content_length, range),
{
    match range {
        Some(range) => range.length,
        None => content_length,
    }
}

/// The label values of an upload task.
pub open spec fn upload_labels(typ: i32, tag: &str, app: &str) -> Seq<Seq<char>> {
    seq![decimal(typ as int), tag@, app@]
}

/// The label values of a download or prefetch task.
pub open spec fn download_labels(typ: i32, tag: &str, app: &str, priority: &str) -> Seq<Seq<char>> {
    seq![decimal(typ as int), tag@, app@, priority@]
}

/// The label values under which a task's duration is recorded: its type and the
/// size level of the bytes it transferred.
pub open spec fn duration_labels(typ: i32, size: u64) -> Seq<Seq<char>> {
    seq![decimal(typ as int), decimal(size_level(size as nat) as int)]
}

/// Decides whether a finished task is slow.
pub fn is_slow_task(size: u64, cost: Duration) -> (slow: bool)
    ensures
        slow == is_slow(size as nat, cost),
{
    let level = TaskSize::calculate_size_level(size);
    level == TaskSize::Level1 && cost.as_nanos() > LEVEL1_DURATION_THRESHOLD_MILLIS * NANOS_PER_MILLI
}

fn task_observation(histogram: Histogram, typ: i32, size: u64, cost: Duration) -> (o: Observation)
    ensures
        o.histogram == histogram,
        texts(o.label_values@) == duration_labels(typ, size),
        o.millis == millis_of(cost),
        o.slow == is_slow(size as nat, cost),
{
    let mut label_values: Vec<String> = Vec::new();
    label_values.push(decimal_string(typ as i64));
    label_values.push(TaskSize::calculate_size_level(size).to_string());
    assert(texts(label_values@) =~= duration_labels(typ, size));
    Observation { histogram, label_values, millis: cost.as_millis(), slow: is_slow_task(size, cost) }
}

/// An upload task started: counted, and one more upload is in progress.
/// The series it touches is the one under the key of these label values.
pub fn collect_upload_task_started_metrics(
    registry: &mut MetricRegistry,
    typ: i32,
    tag: &str,
    app: &str,
)
    requires
        old(registry).wf(),
    ensures
        final(registry).wf(),
        final(registry)@ == old(registry)@
            .count(Counter::UploadTask, upload_labels(typ, tag, app), 1)
            .step(Gauge::ConcurrentUploadTask, upload_labels(typ, tag, app), 1),
{
    let typ = decimal_string(typ as i64);
    let labels = labels3(typ.as_str(), tag, app);
    registry.increment(Counter::UploadTask, &labels, 1);
    registry.increase(Gauge::ConcurrentUploadTask, &labels);
}

/// An upload task finished: one upload fewer is in progress. Its duration is handed
/// back, to be recorded under the task type and the size level of its content, and
/// marked where the task was slow.
/// The series it touches is the one under the key of these label values.
pub fn collect_upload_task_finished_metrics(
    registry: &mut MetricRegistry,
    typ: i32,
    tag: &str,
    app: &str,
    content_length: u64,
    cost: Duration,
) -> (o: Observation)
    requires
        old(registry).wf(),
    ensures
        final(registry).wf(),
        final(registry)@ == old(registry)@.step(Gauge::ConcurrentUploadTask, upload_labels(typ, tag, app), -1),
        o.histogram == Histogram::UploadTaskDuration,
        texts(o.label_values@) == duration_labels(typ, content_length),
        o.millis == millis_of(cost),
        o.slow == is_slow(content_length as nat, cost),
{
    let observation = task_observation(Histogram::UploadTaskDuration, typ, content_length, cost);
    let typ = decimal_string(typ as i64);
    let labels = labels3(typ.as_str(), tag, app);
    registry.decrease(Gauge::ConcurrentUploadTask, &labels);
    observation
}

/// An upload task failed: counted, and one upload fewer is in progress.
/// The series it touches is the one under the key of these label values.
pub fn collect_upload_task_failure_metrics(
    registry: &mut MetricRegistry,
    typ: i32,
    tag: &str,
    app: &str,
)
    requires
        old(registry).wf(),
    ensures
        final(registry).wf(),
        final(registry)@ == old(registry)@
            .count(Counter::UploadTaskFailure, upload_labels(typ, tag, app), 1)
            .step(Gauge::ConcurrentUploadTask, upload_labels(typ, tag, app), -1),
{
    let typ = decimal_string(typ as i64);
    let labels = labels3(typ.as_str(), tag, app);
    registry.increment(Counter::UploadTaskFailure, &labels, 1);
    registry.decrease(Gauge::ConcurrentUploadTask, &labels);
}

/// A download task started: counted, and one more download is in progress.
/// The series it touches is the one under the key of these label values.
pub fn collect_download_task_started_metrics(
    registry: &mut MetricRegistry,
    typ: i32,
    tag: &str,
    app: &str,
    priority: &str,
)
    requires
        old(registry).wf(),
    ensures
        final(registry).wf(),
        final(registry)@ == old(registry)@
            .count(Counter::DownloadTask, download_labels(typ, tag, app, priority), 1)
            .step(Gauge::ConcurrentDownloadTask, download_labels(typ, tag, app, priority), 1),
{
    let typ = decimal_string(typ as i64);
    let labels = labels4(typ.as_str(), tag, app, priority);
    registry.increment(Counter::DownloadTask, &labels, 1);
    registry.increase(Gauge::ConcurrentDownloadTask, &labels);
}

/// A download task finished: one download fewer is in progress. Its duration is
/// handed back, to be recorded under the task type and the size level of the bytes
/// transferred, and marked where the task was slow. Where a range was asked for,
/// its length is what counts, not the content length.
/// The series it touches is the one under the key of these label values.
pub fn collect_download_task_finished_metrics(
    registry: &mut MetricRegistry,
    typ: i32,
    tag: &str,
    app: &str,
    priority: &str,
    content_length: u64,
    range: Option<Range>,
    cost: Duration,
) -> (o: Observation)
    requires
        old(registry).wf(),
    ensures
        final(registry).wf(),
        final(registry)@ == old(registry)@.step(Gauge::ConcurrentDownloadTask, download_labels(typ, tag, app, priority), -1),
        o.histogram == Histogram::DownloadTaskDuration,
        texts(o.label_values@) == duration_labels(typ, effective_size(content_length, range)),
        o.millis == millis_of(cost),
        o.slow == is_slow(effective_size(content_length, range) as nat, cost),
{
    let size = transferred_size(content_length, range);
    let observation = task_observation(Histogram::DownloadTaskDuration, typ, size, cost);
    let typ = decimal_string(typ as i64);
    let labels = labels4(typ.as_str(), tag, app, priority);
    registry.decrease(Gauge::ConcurrentDownloadTask, &labels);
    observation
}

/// A download task failed: counted, and one download fewer is in progress.
/// The series it touches is the one under the key of these label values.
pub fn collect_download_task_failure_metrics(
    registry: &mut MetricRegistry,
    typ: i32,
    tag: &str,
    app: &str,
    priority: &str,
)
    requires
        old(registry).wf(),
    ensures
        final(registry).wf(),
        final(registry)@ == old(registry)@
            .count(Counter::DownloadTaskFailure, download_labels(typ, tag, app, priority), 1)
            .step(Gauge::ConcurrentDownloadTask, download_labels(typ, tag, app, priority), -1),
{
    let typ = decimal_string(typ as i64);
    let labels = labels4(typ.as_str(), tag, app, priority);
    registry.increment(Counter::DownloadTaskFailure, &labels, 1);
    registry.decrease(Gauge::ConcurrentDownloadTask, &labels);
}

/// A prefetch task started: counted.
/// The series it touches is the one under the key of these label values.
pub fn collect_prefetch_task_started_metrics(
    registry: &mut MetricRegistry,
    typ: i32,
    tag: &str,
    app: &str,
    priority: &str,
)
    requires
        old(registry).wf(),
    ensures
        final(registry).wf(),
        final(registry)@ == old(registry)@.count(Counter::PrefetchTask, download_labels(typ, tag, app, priority), 1),
{
    let typ = decimal_string(typ as i64);
    let labels = labels4(typ.as_str(), tag, app, priority);
    registry.increment(Counter::PrefetchTask, &labels, 1);
}

/// A prefetch task failed: counted.
/// The series it touches is the one under the key of these label values.
pub fn collect_prefetch_task_failure_metrics(
    registry: &mut MetricRegistry,
    typ: i32,
    tag: &str,
    app: &str,
    priority: &str,
)
    requires
        old(registry).wf(),
    ensures
        final(registry).wf(),
        final(registry)@ == old(registry)@.count(Counter::PrefetchTaskFailure, download_labels(typ, tag, app, priority), 1),
{
    let typ = decimal_string(typ as i64);
    let labels = labels4(typ.as_str(), tag, app, priority);
    registry.increment(Counter::PrefetchTaskFailure, &labels, 1);
}

/// A piece was downloaded: its bytes are added to the download traffic of its
/// traffic type and task type.
/// The series it touches is the one under the key of these label values.
pub fn collect_download_piece_traffic_metrics(
    registry: &mut MetricRegistry,
    typ: &str,
    task_type: i32,
    length: u64,
)
    requires
        old(registry).wf(),
    ensures
        final(registry).wf(),
        final(registry)@ == old(registry)@.count(Counter::DownloadTraffic, seq![typ@, decimal(task_type as int)], length),
{
    let task_type = decimal_string(task_type as i64);
    let labels = labels2(typ, task_type.as_str());
    registry.increment(Counter::DownloadTraffic, &labels, length);
}

/// The upload of a piece started: one more is in progress.
pub fn collect_upload_piece_started_metrics(registry: &mut MetricRegistry)
    requires
        old(registry).wf(),
    ensures
        final(registry).wf(),
        final(registry)@ == old(registry)@.step(Gauge::ConcurrentUploadPiece, Seq::empty(), 1),
{
    let labels = labels0();
    registry.increase(Gauge::ConcurrentUploadPiece, &labels);
}

/// The upload of a piece finished: one fewer is in progress.
pub fn collect_upload_piece_finished_metrics(registry: &mut MetricRegistry)
    requires
        old(registry).wf(),
    ensures
        final(registry).wf(),
        final(registry)@ == old(registry)@.step(Gauge::ConcurrentUploadPiece, Seq::empty(), -1),
{
    let labels = labels0();
    registry.decrease(Gauge::ConcurrentUploadPiece, &labels);
}

/// A piece was uploaded: its bytes are added to the upload traffic of its task
/// type.
/// The series it touches is the one under the key of these label values.
pub fn collect_upload_piece_traffic_metrics(
    registry: &mut MetricRegistry,
    task_type: i32,
    length: u64,
)
    requires
        old(registry).wf(),
    ensures
        final(registry).wf(),
        final(registry)@ == old(registry)@.count(Counter::UploadTraffic, seq![decimal(task_type as int)], length),
{
    let task_type = decimal_string(task_type as i64);
    let labels = labels1(task_type.as_str());
    registry.increment(Counter::UploadTraffic, &labels, length);
}

/// The upload of a piece failed: one fewer is in progress.
pub fn collect_upload_piece_failure_metrics(registry: &mut MetricRegistry)
    requires
        old(registry).wf(),
    ensures
        final(registry).wf(),
        final(registry)@ == old(registry)@.step(Gauge::ConcurrentUploadPiece, Seq::empty(), -1),
{
    let labels = labels0();
    registry.decrease(Gauge::ConcurrentUploadPiece, &labels);
}

/// A request to a backend started: counted.
/// The series it touches is the one under the key of these label values.
pub fn collect_backend_request_started_metrics(
    registry: &mut MetricRegistry,
    scheme: &str,
    method: &str,
)
    requires
        old(registry).wf(),
    ensures
        final(registry).wf(),
        final(registry)@ == old(registry)@.count(Counter::BackendRequest, seq![scheme@, method@], 1),
{
    let labels = labels2(scheme, method);
    registry.increment(Counter::BackendRequest, &labels, 1);
}

/// A request to a backend failed: counted.
/// The series it touches is the one under the key of these label values.
pub fn collect_backend_request_failure_metrics(
    registry: &mut MetricRegistry,
    scheme: &str,
    method: &str,
)
    requires
        old(registry).wf(),
    ensures
        final(registry).wf(),
        final(registry)@ == old(registry)@.count(Counter::BackendRequestFailure, seq![scheme@, method@], 1),
{
    let labels = labels2(scheme, method);
    registry.increment(Counter::BackendRequestFailure, &labels, 1);
}

/// A request reached the proxy: counted.
pub fn collect_proxy_request_started_metrics(registry: &mut MetricRegistry)
    requires
        old(registry).wf(),
    ensures
        final(registry).wf(),
        final(registry)@ == old(registry)@.count(Counter::ProxyRequest, Seq::empty(), 1),
{
    let labels = labels0();
    registry.increment(Counter::ProxyRequest, &labels, 1);
}

/// A proxy request failed: counted.
pub fn collect_proxy_request_failure_metrics(registry: &mut MetricRegistry)
    requires
        old(registry).wf(),
    ensures
        final(registry).wf(),
        final(registry)@ == old(registry)@.count(Counter::ProxyRequestFailure, Seq::empty(), 1),
{
    let labels = labels0();
    registry.increment(Counter::ProxyRequestFailure, &labels, 1);
}

/// A proxy request was served through the daemon: counted.
pub fn collect_proxy_request_via_dfdaemon_metrics(registry: &mut MetricRegistry)
    requires
        old(registry).wf(),
    ensures
        final(registry).wf(),
        final(registry)@ == old(registry)@.count(Counter::ProxyRequestViaDfdaemon, Seq::empty(), 1),
{
    let labels = labels0();
    registry.increment(Counter::ProxyRequestViaDfdaemon, &labels, 1);
}

/// An update of a task started: counted.
/// The series it touches is the one under the key of these label values.
pub fn collect_update_task_started_metrics(registry: &mut MetricRegistry, typ: i32)
    requires
        old(registry).wf(),
    ensures
        final(registry).wf(),
        final(registry)@ == old(registry)@.count(Counter::UpdateTask, seq![decimal(typ as int)], 1),
{
    let typ = decimal_string(typ as i64);
    let labels = labels1(typ.as_str());
    registry.increment(Counter::UpdateTask, &labels, 1);
}

/// An update of a task failed: counted.
/// The series it touches is the one under the key of these label values.
pub fn collect_update_task_failure_metrics(registry: &mut MetricRegistry, typ: i32)
    requires
        old(registry).wf(),
    ensures
        final(registry).wf(),
        final(registry)@ == old(registry)@.count(Counter::UpdateTaskFailure, seq![decimal(typ as int)], 1),
{
    let typ = decimal_string(typ as i64);
    let labels = labels1(typ.as_str());
    registry.increment(Counter::UpdateTaskFailure, &labels, 1);
}

/// A stat of a task started: counted.
/// The series it touches is the one under the key of these label values.
pub fn collect_stat_task_started_metrics(registry: &mut MetricRegistry, typ: i32)
    requires
        old(registry).wf(),
    ensures
        final(registry).wf(),
        final(registry)@ == old(registry)@.count(Counter::StatTask, seq![decimal(typ as int)], 1),
{
    let typ = decimal_string(typ as i64);
    let labels = labels1(typ.as_str());
    registry.increment(Counter::StatTask, &labels, 1);
}

/// A stat of a task failed: counted.
/// The series it touches is the one under the key of these label values.
pub fn collect_stat_task_failure_metrics(registry: &mut MetricRegistry, typ: i32)
    requires
        old(registry).wf(),
    ensures
        final(registry).wf(),
        final(registry)@ == old(registry)@.count(Counter::StatTaskFailure, seq![decimal(typ as int)], 1),
{
    let typ = decimal_string(typ as i64);
    let labels = labels1(typ.as_str());
    registry.increment(Counter::StatTaskFailure, &labels, 1);
}

/// A listing of task entries started: counted.
/// The series it touches is the one under the key of these label values.
pub fn collect_list_task_entries_started_metrics(registry: &mut MetricRegistry, typ: i32)
    requires
        old(registry).wf(),
    ensures
        final(registry).wf(),
        final(registry)@ == old(registry)@.count(Counter::ListTaskEntries, seq![decimal(typ as int)], 1),
{
    let typ = decimal_string(typ as i64);
    let labels = labels1(typ.as_str());
    registry.increment(Counter::ListTaskEntries, &labels, 1);
}

/// A listing of task entries failed: counted.
/// The series it touches is the one under the key of these label values.
pub fn collect_list_task_entries_failure_metrics(registry: &mut MetricRegistry, typ: i32)
    requires
        old(registry).wf(),
    ensures
        final(registry).wf(),
        final(registry)@ == old(registry)@.count(Counter::ListTaskEntriesFailure, seq![decimal(typ as int)], 1),
{
    let typ = decimal_string(typ as i64);
    let labels = labels1(typ.as_str());
    registry.increment(Counter::ListTaskEntriesFailure, &labels, 1);
}

/// The deletion of a task started: counted.
/// The series it touches is the one under the key of these label values.
pub fn collect_delete_task_started_metrics(registry: &mut MetricRegistry, typ: i32)
    requires
        old(registry).wf(),
    ensures
        final(registry).wf(),
        final(registry)@ == old(registry)@.count(Counter::DeleteTask, seq![decimal(typ as int)], 1),
{
    let typ = decimal_string(typ as i64);
    let labels = labels1(typ.as_str());
    registry.increment(Counter::DeleteTask, &labels, 1);
}

/// The deletion of a task failed: counted.
/// The series it touches is the one under the key of these label values.
pub fn collect_delete_task_failure_metrics(registry: &mut MetricRegistry, typ: i32)
    requires
        old(registry).wf(),
    ensures
        final(registry).wf(),
        final(registry)@ == old(registry)@.count(Counter::DeleteTaskFailure, seq![decimal(typ as int)], 1),
{
    let typ = decimal_string(typ as i64);
    let labels = labels1(typ.as_str());
    registry.increment(Counter::DeleteTaskFailure, &labels, 1);
}

/// The deletion of a host started: counted.
pub fn collect_delete_host_started_metrics(registry: &mut MetricRegistry)
    requires
        old(registry).wf(),
    ensures
        final(registry).wf(),
        final(registry)@ == old(registry)@.count(Counter::DeleteHost, Seq::empty(), 1),
{
    let labels = labels0();
    registry.increment(Counter::DeleteHost, &labels, 1);
}

/// The deletion of a host failed: counted.
pub fn collect_delete_host_failure_metrics(registry: &mut MetricRegistry)
    requires
        old(registry).wf(),
    ensures
        final(registry).wf(),
        final(registry)@ == old(registry)@.count(Counter::DeleteHostFailure, Seq::empty(), 1),
{
    let labels = labels0();
    registry.increment(Counter::DeleteHostFailure, &labels, 1);
}

/// A request to a backend finished. Nothing in the registry changes; the duration
/// is handed back, to be recorded under the scheme and the method.
pub fn collect_backend_request_finished_metrics(scheme: &str, method: &str, cost: Duration) -> (o: Observation)
    ensures
        o.histogram == Histogram::BackendRequestDuration,
        texts(o.label_values@) == seq![scheme@, method@],
        o.millis == millis_of(cost),
        !o.slow,
{
    let mut label_values: Vec<String> = Vec::new();
    label_values.push(String::from_str(scheme));
    label_values.push(String::from_str(method));
    assert(texts(label_values@) =~= seq![scheme@, method@]);
    Observation {
        histogram: Histogram::BackendRequestDuration,
        label_values,
        millis: cost.as_millis(),
        slow: false,
    }
}

/// The bytes in use on a disk: its size less what is free, wrapped to 64 bits.
pub open spec fn used_space(stats: DiskStats) -> u64 {
    stats.total_space.wrapping_sub(stats.available_space)
}

/// The state after the storage disk was probed: the two disk gauges are set, the
/// size and the bytes in use, each as a signed number of 64 bits. A probe that
/// failed changes nothing.
pub open spec fn with_disk(state: MetricsState, stats: Option<DiskStats>) -> MetricsState {
    match stats {
        Some(stats) => state.assign(Gauge::DiskSpace, Seq::empty(), stats.total_space as i64).assign(
            Gauge::DiskUsageSpace,
            Seq::empty(),
            used_space(stats) as i64,
        ),
        None => state,
    }
}

/// Records what a probe of the storage disk found; `None` stands for a probe that
/// failed, after which the gauges keep what they had.
pub fn collect_disk_metrics(registry: &mut MetricRegistry, stats: Option<DiskStats>)
    requires
        old(registry).wf(),
    ensures
        final(registry).wf(),
        final(registry)@ == with_disk(old(registry)@, stats),
{
    match stats {
        Some(stats) => {
            let usage_space = stats.total_space.wrapping_sub(stats.available_space);
            let labels = labels0();
            registry.set(Gauge::DiskSpace, &labels, stats.total_space as i64);
            registry.set(Gauge::DiskUsageSpace, &labels, usage_space as i64);
        },
        None => {},
    }
}

} // verus!
