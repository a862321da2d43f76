//! The metric families that the client declares: their names, help texts and label
//! names.

use vstd::prelude::*;
use crate::family::{fq_name, is_declarable, is_label_name, is_metric_name, is_name_char, label_seq};
use crate::text::{labels0, labels1, labels2, labels3, labels4};

verus! {

/// What a family is declared with.
pub struct Declaration {
    /// The last part of the family's name.
    pub name: &'static str,
    /// The help text shown with the family.
    pub help: &'static str,
    /// The names of the family's labels, in the order of their values.
    pub label_names: Vec<&'static str>,
}

/// The fully-qualified name of a family of this client, from the last part of its
/// name: the service's name, the client's name and that part, joined by underscores.
pub open spec fn full_name(name: Seq<char>) -> Seq<char> {
    fq_name("dragonfly"@, "client"@, name)
}

/// A name made of letters, digits and underscores gives a full name that is a
/// metric name.
proof fn lemma_full_name(name: Seq<char>)
    requires
        name.len() > 0,
        forall|i: int| 0 <= i < name.len() ==> is_name_char(#[trigger] name[i]),
    ensures
        is_metric_name(full_name(name)),
{
    reveal_strlit("dragonfly");
    reveal_strlit("client");
    let prefix = "dragonfly"@ + seq!['_'] + "client"@ + seq!['_'];
    assert(prefix.len() == 17);
    assert(forall|i: int| 0 <= i < prefix.len() ==> is_name_char(#[trigger] prefix[i]));
    assert(full_name(name) =~= prefix + name);
    assert forall|i: int| 0 <= i < full_name(name).len() implies is_name_char(#[trigger] full_name(name)[i]) by {
        if i >= prefix.len() {
            assert(full_name(name)[i] == name[i - prefix.len()]);
        } else {
            assert(full_name(name)[i] == prefix[i]);
        }
    }
}

/// The label names in use are label names, and no two of one family are the same.
proof fn lemma_label_names()
    ensures
        is_label_name("type"@),
        is_label_name("tag"@),
        is_label_name("app"@),
        is_label_name("priority"@),
        is_label_name("task_type"@),
        is_label_name("task_size_level"@),
        is_label_name("scheme"@),
        is_label_name("method"@),
        is_label_name("git_version"@),
        is_label_name("git_commit"@),
        is_label_name("platform"@),
        is_label_name("build_time"@),
        "type"@ != "tag"@ && "type"@ != "app"@ && "type"@ != "priority"@ && "type"@ != "task_type"@,
        "tag"@ != "app"@ && "tag"@ != "priority"@ && "app"@ != "priority"@,
        "task_type"@ != "task_size_level"@ && "scheme"@ != "method"@,
        "git_version"@ != "git_commit"@ && "git_version"@ != "platform"@ && "git_version"@ != "build_time"@,
        "git_commit"@ != "platform"@ && "git_commit"@ != "build_time"@ && "platform"@ != "build_time"@,
{
    reveal_strlit("type");
    reveal_strlit("tag");
    reveal_strlit("app");
    reveal_strlit("priority");
    reveal_strlit("task_type");
    reveal_strlit("task_size_level");
    reveal_strlit("scheme");
    reveal_strlit("method");
    reveal_strlit("git_version");
    reveal_strlit("git_commit");
    reveal_strlit("platform");
    reveal_strlit("build_time");
    assert("tag"@[0] != "app"@[0]);
    assert("scheme"@[0] != "method"@[0]);
    assert("git_commit"@[0] != "build_time"@[0]);
}

/// The counter families.
#[derive(Debug, Clone, Copy, PartialEq, Eq, Structural)]
pub enum Counter {
    /// The upload tasks that were started.
    UploadTask,
    /// The upload tasks that failed.
    UploadTaskFailure,
    /// The download tasks that were started.
    DownloadTask,
    /// The download tasks that failed.
    DownloadTaskFailure,
    /// The prefetch tasks that were started.
    PrefetchTask,
    /// The prefetch tasks that failed.
    PrefetchTaskFailure,
    /// The bytes downloaded, by traffic type and task type.
    DownloadTraffic,
    /// The bytes uploaded, by task type.
    UploadTraffic,
    /// The requests made to a backend.
    BackendRequest,
    /// The requests to a backend that failed.
    BackendRequestFailure,
    /// The requests that reached the proxy.
    ProxyRequest,
    /// The proxy requests that failed.
    ProxyRequestFailure,
    /// The proxy requests that were served through the daemon.
    ProxyRequestViaDfdaemon,
    /// The update-task operations that were started.
    UpdateTask,
    /// The update-task operations that failed.
    UpdateTaskFailure,
    /// The stat-task operations that were started.
    StatTask,
    /// The stat-task operations that failed.
    StatTaskFailure,
    /// The list-task-entries operations that were started.
    ListTaskEntries,
    /// The list-task-entries operations that failed.
    ListTaskEntriesFailure,
    /// The delete-task operations that were started.
    DeleteTask,
    /// The delete-task operations that failed.
    DeleteTaskFailure,
    /// The delete-host operations that were started.
    DeleteHost,
    /// The delete-host operations that failed.
    DeleteHostFailure,
}

impl Counter {
    /// The number of counter families.
    pub const COUNT: usize = 23;

    /// The place of the family among the counter families.
    pub open spec fn index(self) -> nat {
        match self {
            Counter::UploadTask => 0,
            Counter::UploadTaskFailure => 1,
            Counter::DownloadTask => 2,
            Counter::DownloadTaskFailure => 3,
            Counter::PrefetchTask => 4,
            Counter::PrefetchTaskFailure => 5,
            Counter::DownloadTraffic => 6,
            Counter::UploadTraffic => 7,
            Counter::BackendRequest => 8,
            Counter::BackendRequestFailure => 9,
            Counter::ProxyRequest => 10,
            Counter::ProxyRequestFailure => 11,
            Counter::ProxyRequestViaDfdaemon => 12,
            Counter::UpdateTask => 13,
            Counter::UpdateTaskFailure => 14,
            Counter::StatTask => 15,
            Counter::StatTaskFailure => 16,
            Counter::ListTaskEntries => 17,
            Counter::ListTaskEntriesFailure => 18,
            Counter::DeleteTask => 19,
            Counter::DeleteTaskFailure => 20,
            Counter::DeleteHost => 21,
            Counter::DeleteHostFailure => 22,
        }
    }

    /// The family at a place.
    pub open spec fn at(index: nat) -> Counter {
        if index == 0 {
            Counter::UploadTask
        } else if index == 1 {
            Counter::UploadTaskFailure
        } else if index == 2 {
            Counter::DownloadTask
        } else if index == 3 {
            Counter::DownloadTaskFailure
        } else if index == 4 {
            Counter::PrefetchTask
        } else if index == 5 {
            Counter::PrefetchTaskFailure
        } else if index == 6 {
            Counter::DownloadTraffic
        } else if index == 7 {
            Counter::UploadTraffic
        } else if index == 8 {
            Counter::BackendRequest
        } else if index == 9 {
            Counter::BackendRequestFailure
        } else if index == 10 {
            Counter::ProxyRequest
        } else if index == 11 {
            Counter::ProxyRequestFailure
        } else if index == 12 {
            Counter::ProxyRequestViaDfdaemon
        } else if index == 13 {
            Counter::UpdateTask
        } else if index == 14 {
            Counter::UpdateTaskFailure
        } else if index == 15 {
            Counter::StatTask
        } else if index == 16 {
            Counter::StatTaskFailure
        } else if index == 17 {
            Counter::ListTaskEntries
        } else if index == 18 {
            Counter::ListTaskEntriesFailure
        } else if index == 19 {
            Counter::DeleteTask
        } else if index == 20 {
            Counter::DeleteTaskFailure
        } else if index == 21 {
            Counter::DeleteHost
        } else {
            Counter::DeleteHostFailure
        }
    }

    /// The last part of the family's name.
    pub open spec fn name(self) -> Seq<char> {
        match self {
            Counter::UploadTask => "upload_task_total"@,
            Counter::UploadTaskFailure => "upload_task_failure_total"@,
            Counter::DownloadTask => "download_task_total"@,
            Counter::DownloadTaskFailure => "download_task_failure_total"@,
            Counter::PrefetchTask => "prefetch_task_total"@,
            Counter::PrefetchTaskFailure => "prefetch_task_failure_total"@,
            Counter::DownloadTraffic => "download_traffic"@,
            Counter::UploadTraffic => "upload_traffic"@,
            Counter::BackendRequest => "backend_request_total"@,
            Counter::BackendRequestFailure => "backend_request_failure_total"@,
            Counter::ProxyRequest => "proxy_request_total"@,
            Counter::ProxyRequestFailure => "proxy_request_failure_total"@,
            Counter::ProxyRequestViaDfdaemon => "proxy_request_via_dfdaemon_total"@,
            Counter::UpdateTask => "update_task_total"@,
            Counter::UpdateTaskFailure => "update_task_failure_total"@,
            Counter::StatTask => "stat_task_total"@,
            Counter::StatTaskFailure => "stat_task_failure_total"@,
            Counter::ListTaskEntries => "list_task_entries_total"@,
            Counter::ListTaskEntriesFailure => "list_task_entries_failure_total"@,
            Counter::DeleteTask => "delete_task_total"@,
            Counter::DeleteTaskFailure => "delete_task_failure_total"@,
            Counter::DeleteHost => "delete_host_total"@,
            Counter::DeleteHostFailure => "delete_host_failure_total"@,
        }
    }

    /// The family's help text.
    pub open spec fn help(self) -> Seq<char> {
        match self {
            Counter::UploadTask => "Counter of the number of the upload task."@,
            Counter::UploadTaskFailure => "Counter of the number of failed of the upload task."@,
            Counter::DownloadTask => "Counter of the number of the download task."@,
            Counter::DownloadTaskFailure => "Counter of the number of failed of the download task."@,
            Counter::PrefetchTask => "Counter of the number of the prefetch task."@,
            Counter::PrefetchTaskFailure => "Counter of the number of failed of the prefetch task."@,
            Counter::DownloadTraffic => "Counter of the number of the download traffic."@,
            Counter::UploadTraffic => "Counter of the number of the upload traffic."@,
            Counter::BackendRequest => "Counter of the number of the backend request."@,
            Counter::BackendRequestFailure => "Counter of the number of failed of the backend request."@,
            Counter::ProxyRequest => "Counter of the number of the proxy request."@,
            Counter::ProxyRequestFailure => "Counter of the number of failed of the proxy request."@,
            Counter::ProxyRequestViaDfdaemon => "Counter of the number of the proxy request via dfdaemon."@,
            Counter::UpdateTask => "Counter of the number of the update task."@,
            Counter::UpdateTaskFailure => "Counter of the number of failed of the update task."@,
            Counter::StatTask => "Counter of the number of the stat task."@,
            Counter::StatTaskFailure => "Counter of the number of failed of the stat task."@,
            Counter::ListTaskEntries => "Counter of the number of the list task entries."@,
            Counter::ListTaskEntriesFailure => "Counter of the number of failed of the list task entries."@,
            Counter::DeleteTask => "Counter of the number of the delete task."@,
            Counter::DeleteTaskFailure => "Counter of the number of failed of the delete task."@,
            Counter::DeleteHost => "Counter of the number of the delete host."@,
            Counter::DeleteHostFailure => "Counter of the number of failed of the delete host."@,
        }
    }

    /// The names of the family's labels.
    pub open spec fn label_names(self) -> Seq<Seq<char>> {
        match self {
            Counter::UploadTask | Counter::UploadTaskFailure => seq!["type"@, "tag"@, "app"@],
            Counter::DownloadTask
            | Counter::DownloadTaskFailure
            | Counter::PrefetchTask
            | Counter::PrefetchTaskFailure => seq!["type"@, "tag"@, "app"@, "priority"@],
            Counter::DownloadTraffic => seq!["type"@, "task_type"@],
            Counter::UploadTraffic => seq!["task_type"@],
            Counter::BackendRequest | Counter::BackendRequestFailure => seq!["scheme"@, "method"@],
            Counter::ProxyRequest
            | Counter::ProxyRequestFailure
            | Counter::ProxyRequestViaDfdaemon
            | Counter::DeleteHost
            | Counter::DeleteHostFailure => Seq::empty(),
            Counter::UpdateTask
            | Counter::UpdateTaskFailure
            | Counter::StatTask
            | Counter::StatTaskFailure
            | Counter::ListTaskEntries
            | Counter::ListTaskEntriesFailure
            | Counter::DeleteTask
            | Counter::DeleteTaskFailure => seq!["type"@],
        }
    }

    /// The place of the family, as a number.
    pub fn position(self) -> (index: usize)
        ensures
            index == self.index(),
            index < Counter::COUNT,
            Counter::at(index as nat) == self,
    {
        match self {
            Counter::UploadTask => 0,
            Counter::UploadTaskFailure => 1,
            Counter::DownloadTask => 2,
            Counter::DownloadTaskFailure => 3,
            Counter::PrefetchTask => 4,
            Counter::PrefetchTaskFailure => 5,
            Counter::DownloadTraffic => 6,
            Counter::UploadTraffic => 7,
            Counter::BackendRequest => 8,
            Counter::BackendRequestFailure => 9,
            Counter::ProxyRequest => 10,
            Counter::ProxyRequestFailure => 11,
            Counter::ProxyRequestViaDfdaemon => 12,
            Counter::UpdateTask => 13,
            Counter::UpdateTaskFailure => 14,
            Counter::StatTask => 15,
            Counter::StatTaskFailure => 16,
            Counter::ListTaskEntries => 17,
            Counter::ListTaskEntriesFailure => 18,
            Counter::DeleteTask => 19,
            Counter::DeleteTaskFailure => 20,
            Counter::DeleteHost => 21,
            Counter::DeleteHostFailure => 22,
        }
    }

    /// The family at a place.
    pub fn nth(index: usize) -> (family: Counter)
        requires
            index < Counter::COUNT,
        ensures
            family == Counter::at(index as nat),
            family.index() == index,
    {
        if index == 0 {
            Counter::UploadTask
        } else if index == 1 {
            Counter::UploadTaskFailure
        } else if index == 2 {
            Counter::DownloadTask
        } else if index == 3 {
            Counter::DownloadTaskFailure
        } else if index == 4 {
            Counter::PrefetchTask
        } else if index == 5 {
            Counter::PrefetchTaskFailure
        } else if index == 6 {
            Counter::DownloadTraffic
        } else if index == 7 {
            Counter::UploadTraffic
        } else if index == 8 {
            Counter::BackendRequest
        } else if index == 9 {
            Counter::BackendRequestFailure
        } else if index == 10 {
            Counter::ProxyRequest
        } else if index == 11 {
            Counter::ProxyRequestFailure
        } else if index == 12 {
            Counter::ProxyRequestViaDfdaemon
        } else if index == 13 {
            Counter::UpdateTask
        } else if index == 14 {
            Counter::UpdateTaskFailure
        } else if index == 15 {
            Counter::StatTask
        } else if index == 16 {
            Counter::StatTaskFailure
        } else if index == 17 {
            Counter::ListTaskEntries
        } else if index == 18 {
            Counter::ListTaskEntriesFailure
        } else if index == 19 {
            Counter::DeleteTask
        } else if index == 20 {
            Counter::DeleteTaskFailure
        } else if index == 21 {
            Counter::DeleteHost
        } else {
            Counter::DeleteHostFailure
        }
    }

    /// The family at a place, if there is one.
    pub fn from_index(index: usize) -> (family: Option<Counter>)
        ensures
            index < Counter::COUNT ==> family == Some(Counter::at(index as nat)),
            index >= Counter::COUNT ==> family is None,
    {
        if index < Counter::COUNT {
            Some(Counter::nth(index))
        } else {
            None
        }
    }
    /// The family is one that `prometheus` accepts.
    pub proof fn lemma_declarable(self)
        ensures
            is_declarable(full_name(self.name()), self.help(), self.label_names()),
    {
        match self {
            Counter::UploadTask => {
                reveal_strlit("upload_task_total");
                reveal_strlit("Counter of the number of the upload task.");
            },
            Counter::UploadTaskFailure => {
                reveal_strlit("upload_task_failure_total");
                reveal_strlit("Counter of the number of failed of the upload task.");
            },
            Counter::DownloadTask => {
                reveal_strlit("download_task_total");
                reveal_strlit("Counter of the number of the download task.");
            },
            Counter::DownloadTaskFailure => {
                reveal_strlit("download_task_failure_total");
                reveal_strlit("Counter of the number of failed of the download task.");
            },
            Counter::PrefetchTask => {
                reveal_strlit("prefetch_task_total");
                reveal_strlit("Counter of the number of the prefetch task.");
            },
            Counter::PrefetchTaskFailure => {
                reveal_strlit("prefetch_task_failure_total");
                reveal_strlit("Counter of the number of failed of the prefetch task.");
            },
            Counter::DownloadTraffic => {
                reveal_strlit("download_traffic");
                reveal_strlit("Counter of the number of the download traffic.");
            },
            Counter::UploadTraffic => {
                reveal_strlit("upload_traffic");
                reveal_strlit("Counter of the number of the upload traffic.");
            },
            Counter::BackendRequest => {
                reveal_strlit("backend_request_total");
                reveal_strlit("Counter of the number of the backend request.");
            },
            Counter::BackendRequestFailure => {
                reveal_strlit("backend_request_failure_total");
                reveal_strlit("Counter of the number of failed of the backend request.");
            },
            Counter::ProxyRequest => {
                reveal_strlit("proxy_request_total");
                reveal_strlit("Counter of the number of the proxy request.");
            },
            Counter::ProxyRequestFailure => {
                reveal_strlit("proxy_request_failure_total");
                reveal_strlit("Counter of the number of failed of the proxy request.");
            },
            Counter::ProxyRequestViaDfdaemon => {
                reveal_strlit("proxy_request_via_dfdaemon_total");
                reveal_strlit("Counter of the number of the proxy request via dfdaemon.");
            },
            Counter::UpdateTask => {
                reveal_strlit("update_task_total");
                reveal_strlit("Counter of the number of the update task.");
            },
            Counter::UpdateTaskFailure => {
                reveal_strlit("update_task_failure_total");
                reveal_strlit("Counter of the number of failed of the update task.");
            },
            Counter::StatTask => {
                reveal_strlit("stat_task_total");
                reveal_strlit("Counter of the number of the stat task.");
            },
            Counter::StatTaskFailure => {
                reveal_strlit("stat_task_failure_total");
                reveal_strlit("Counter of the number of failed of the stat task.");
            },
            Counter::ListTaskEntries => {
                reveal_strlit("list_task_entries_total");
                reveal_strlit("Counter of the number of the list task entries.");
            },
            Counter::ListTaskEntriesFailure => {
                reveal_strlit("list_task_entries_failure_total");
                reveal_strlit("Counter of the number of failed of the list task entries.");
            },
            Counter::DeleteTask => {
                reveal_strlit("delete_task_total");
                reveal_strlit("Counter of the number of the delete task.");
            },
            Counter::DeleteTaskFailure => {
                reveal_strlit("delete_task_failure_total");
                reveal_strlit("Counter of the number of failed of the delete task.");
            },
            Counter::DeleteHost => {
                reveal_strlit("delete_host_total");
                reveal_strlit("Counter of the number of the delete host.");
            },
            Counter::DeleteHostFailure => {
                reveal_strlit("delete_host_failure_total");
                reveal_strlit("Counter of the number of failed of the delete host.");
            },
        }
        lemma_full_name(self.name());
        lemma_label_names();
    }

    /// What the family is declared with.
    pub fn declaration(self) -> (d: Declaration)
        ensures
            d.name@ == self.name(),
            d.help@ == self.help(),
            label_seq(d.label_names@) == self.label_names(),
    {
        match self {
            Counter::UploadTask => Declaration {
                name: "upload_task_total",
                help: "Counter of the number of the upload task.",
                label_names: labels3("type", "tag", "app"),
            },
            Counter::UploadTaskFailure => Declaration {
                name: "upload_task_failure_total",
                help: "Counter of the number of failed of the upload task.",
                label_names: labels3("type", "tag", "app"),
            },
            Counter::DownloadTask => Declaration {
                name: "download_task_total",
                help: "Counter of the number of the download task.",
                label_names: labels4("type", "tag", "app", "priority"),
            },
            Counter::DownloadTaskFailure => Declaration {
                name: "download_task_failure_total",
                help: "Counter of the number of failed of the download task.",
                label_names: labels4("type", "tag", "app", "priority"),
            },
            Counter::PrefetchTask => Declaration {
                name: "prefetch_task_total",
                help: "Counter of the number of the prefetch task.",
                label_names: labels4("type", "tag", "app", "priority"),
            },
            Counter::PrefetchTaskFailure => Declaration {
                name: "prefetch_task_failure_total",
                help: "Counter of the number of failed of the prefetch task.",
                label_names: labels4("type", "tag", "app", "priority"),
            },
            Counter::DownloadTraffic => Declaration {
                name: "download_traffic",
                help: "Counter of the number of the download traffic.",
                label_names: labels2("type", "task_type"),
            },
            Counter::UploadTraffic => Declaration {
                name: "upload_traffic",
                help: "Counter of the number of the upload traffic.",
                label_names: labels1("task_type"),
            },
            Counter::BackendRequest => Declaration {
                name: "backend_request_total",
                help: "Counter of the number of the backend request.",
                label_names: labels2("scheme", "method"),
            },
            Counter::BackendRequestFailure => Declaration {
                name: "backend_request_failure_total",
                help: "Counter of the number of failed of the backend request.",
                label_names: labels2("scheme", "method"),
            },
            Counter::ProxyRequest => Declaration {
                name: "proxy_request_total",
                help: "Counter of the number of the proxy request.",
                label_names: labels0(),
            },
            Counter::ProxyRequestFailure => Declaration {
                name: "proxy_request_failure_total",
                help: "Counter of the number of failed of the proxy request.",
                label_names: labels0(),
            },
            Counter::ProxyRequestViaDfdaemon => Declaration {
                name: "proxy_request_via_dfdaemon_total",
                help: "Counter of the number of the proxy request via dfdaemon.",
                label_names: labels0(),
            },
            Counter::UpdateTask => Declaration {
                name: "update_task_total",
                help: "Counter of the number of the update task.",
                label_names: labels1("type"),
            },
            Counter::UpdateTaskFailure => Declaration {
                name: "update_task_failure_total",
                help: "Counter of the number of failed of the update task.",
                label_names: labels1("type"),
            },
            Counter::StatTask => Declaration {
                name: "stat_task_total",
                help: "Counter of the number of the stat task.",
                label_names: labels1("type"),
            },
            Counter::StatTaskFailure => Declaration {
                name: "stat_task_failure_total",
                help: "Counter of the number of failed of the stat task.",
                label_names: labels1("type"),
            },
            Counter::ListTaskEntries => Declaration {
                name: "list_task_entries_total",
                help: "Counter of the number of the list task entries.",
                label_names: labels1("type"),
            },
            Counter::ListTaskEntriesFailure => Declaration {
                name: "list_task_entries_failure_total",
                help: "Counter of the number of failed of the list task entries.",
                label_names: labels1("type"),
            },
            Counter::DeleteTask => Declaration {
                name: "delete_task_total",
                help: "Counter of the number of the delete task.",
                label_names: labels1("type"),
            },
            Counter::DeleteTaskFailure => Declaration {
                name: "delete_task_failure_total",
                help: "Counter of the number of failed of the delete task.",
                label_names: labels1("type"),
            },
            Counter::DeleteHost => Declaration {
                name: "delete_host_total",
                help: "Counter of the number of the delete host.",
                label_names: labels0(),
            },
            Counter::DeleteHostFailure => Declaration {
                name: "delete_host_failure_total",
                help: "Counter of the number of failed of the delete host.",
                label_names: labels0(),
            },
        }
    }
}

/// The gauge families.
#[derive(Debug, Clone, Copy, PartialEq, Eq, Structural)]
pub enum Gauge {
    /// The build that is running: set to 1 under its version labels.
    Version,
    /// The upload tasks in progress.
    ConcurrentUploadTask,
    /// The download tasks in progress.
    ConcurrentDownloadTask,
    /// The piece uploads in progress.
    ConcurrentUploadPiece,
    /// The size of the storage disk, in bytes.
    DiskSpace,
    /// The bytes in use on the storage disk.
    DiskUsageSpace,
}

impl Gauge {
    /// The number of gauge families.
    pub const COUNT: usize = 6;

    /// The place of the family among the gauge families.
    pub open spec fn index(self) -> nat {
        match self {
            Gauge::Version => 0,
            Gauge::ConcurrentUploadTask => 1,
            Gauge::ConcurrentDownloadTask => 2,
            Gauge::ConcurrentUploadPiece => 3,
            Gauge::DiskSpace => 4,
            Gauge::DiskUsageSpace => 5,
        }
    }

    /// The family at a place.
    pub open spec fn at(index: nat) -> Gauge {
        if index == 0 {
            Gauge::Version
        } else if index == 1 {
            Gauge::ConcurrentUploadTask
        } else if index == 2 {
            Gauge::ConcurrentDownloadTask
        } else if index == 3 {
            Gauge::ConcurrentUploadPiece
        } else if index == 4 {
            Gauge::DiskSpace
        } else {
            Gauge::DiskUsageSpace
        }
    }

    /// The last part of the family's name.
    pub open spec fn name(self) -> Seq<char> {
        match self {
            Gauge::Version => "version"@,
            Gauge::ConcurrentUploadTask => "concurrent_upload_task_total"@,
            Gauge::ConcurrentDownloadTask => "concurrent_download_task_total"@,
            Gauge::ConcurrentUploadPiece => "concurrent_upload_piece_total"@,
            Gauge::DiskSpace => "disk_space_total"@,
            Gauge::DiskUsageSpace => "disk_usage_space_total"@,
        }
    }

    /// The family's help text.
    pub open spec fn help(self) -> Seq<char> {
        match self {
            Gauge::Version => "Version info of the service."@,
            Gauge::ConcurrentUploadTask => "Gauge of the number of concurrent of the upload task."@,
            Gauge::ConcurrentDownloadTask => "Gauge of the number of concurrent of the download task."@,
            Gauge::ConcurrentUploadPiece => "Gauge of the number of concurrent of the upload piece."@,
            Gauge::DiskSpace => "Gauge of the disk space in bytes"@,
            Gauge::DiskUsageSpace => "Gauge of the disk usage space in bytes"@,
        }
    }

    /// The names of the family's labels.
    pub open spec fn label_names(self) -> Seq<Seq<char>> {
        match self {
            Gauge::Version => seq!["git_version"@, "git_commit"@, "platform"@, "build_time"@],
            Gauge::ConcurrentUploadTask => seq!["type"@, "tag"@, "app"@],
            Gauge::ConcurrentDownloadTask => seq!["type"@, "tag"@, "app"@, "priority"@],
            Gauge::ConcurrentUploadPiece
            | Gauge::DiskSpace
            | Gauge::DiskUsageSpace => Seq::empty(),
        }
    }

    /// The place of the family, as a number.
    pub fn position(self) -> (index: usize)
        ensures
            index == self.index(),
            index < Gauge::COUNT,
            Gauge::at(index as nat) == self,
    {
        match self {
            Gauge::Version => 0,
            Gauge::ConcurrentUploadTask => 1,
            Gauge::ConcurrentDownloadTask => 2,
            Gauge::ConcurrentUploadPiece => 3,
            Gauge::DiskSpace => 4,
            Gauge::DiskUsageSpace => 5,
        }
    }

    /// The family at a place.
    pub fn nth(index: usize) -> (family: Gauge)
        requires
            index < Gauge::COUNT,
        ensures
            family == Gauge::at(index as nat),
            family.index() == index,
    {
        if index == 0 {
            Gauge::Version
        } else if index == 1 {
            Gauge::ConcurrentUploadTask
        } else if index == 2 {
            Gauge::ConcurrentDownloadTask
        } else if index == 3 {
            Gauge::ConcurrentUploadPiece
        } else if index == 4 {
            Gauge::DiskSpace
        } else {
            Gauge::DiskUsageSpace
        }
    }

    /// The family at a place, if there is one.
    pub fn from_index(index: usize) -> (family: Option<Gauge>)
        ensures
            index < Gauge::COUNT ==> family == Some(Gauge::at(index as nat)),
            index >= Gauge::COUNT ==> family is None,
    {
        if index < Gauge::COUNT {
            Some(Gauge::nth(index))
        } else {
            None
        }
    }
    /// The family is one that `prometheus` accepts.
    pub proof fn lemma_declarable(self)
        ensures
            is_declarable(full_name(self.name()), self.help(), self.label_names()),
    {
        match self {
            Gauge::Version => {
                reveal_strlit("version");
                reveal_strlit("Version info of the service.");
            },
            Gauge::ConcurrentUploadTask => {
                reveal_strlit("concurrent_upload_task_total");
                reveal_strlit("Gauge of the number of concurrent of the upload task.");
            },
            Gauge::ConcurrentDownloadTask => {
                reveal_strlit("concurrent_download_task_total");
                reveal_strlit("Gauge of the number of concurrent of the download task.");
            },
            Gauge::ConcurrentUploadPiece => {
                reveal_strlit("concurrent_upload_piece_total");
                reveal_strlit("Gauge of the number of concurrent of the upload piece.");
            },
            Gauge::DiskSpace => {
                reveal_strlit("disk_space_total");
                reveal_strlit("Gauge of the disk space in bytes");
            },
            Gauge::DiskUsageSpace => {
                reveal_strlit("disk_usage_space_total");
                reveal_strlit("Gauge of the disk usage space in bytes");
            },
        }
        lemma_full_name(self.name());
        lemma_label_names();
    }

    /// What the family is declared with.
    pub fn declaration(self) -> (d: Declaration)
        ensures
            d.name@ == self.name(),
            d.help@ == self.help(),
            label_seq(d.label_names@) == self.label_names(),
    {
        match self {
            Gauge::Version => Declaration {
                name: "version",
                help: "Version info of the service.",
                label_names: labels4("git_version", "git_commit", "platform", "build_time"),
            },
            Gauge::ConcurrentUploadTask => Declaration {
                name: "concurrent_upload_task_total",
                help: "Gauge of the number of concurrent of the upload task.",
                label_names: labels3("type", "tag", "app"),
            },
            Gauge::ConcurrentDownloadTask => Declaration {
                name: "concurrent_download_task_total",
                help: "Gauge of the number of concurrent of the download task.",
                label_names: labels4("type", "tag", "app", "priority"),
            },
            Gauge::ConcurrentUploadPiece => Declaration {
                name: "concurrent_upload_piece_total",
                help: "Gauge of the number of concurrent of the upload piece.",
                label_names: labels0(),
            },
            Gauge::DiskSpace => Declaration {
                name: "disk_space_total",
                help: "Gauge of the disk space in bytes",
                label_names: labels0(),
            },
            Gauge::DiskUsageSpace => Declaration {
                name: "disk_usage_space_total",
                help: "Gauge of the disk usage space in bytes",
                label_names: labels0(),
            },
        }
    }
}

/// The histogram families, which record durations in milliseconds.
#[derive(Debug, Clone, Copy, PartialEq, Eq, Structural)]
pub enum Histogram {
    /// How long upload tasks took, by task type and size level.
    UploadTaskDuration,
    /// How long download tasks took, by task type and size level.
    DownloadTaskDuration,
    /// How long requests to a backend took.
    BackendRequestDuration,
}

impl Histogram {
    /// The last part of the family's name.
    pub open spec fn name(self) -> Seq<char> {
        match self {
            Histogram::UploadTaskDuration => "upload_task_duration_milliseconds"@,
            Histogram::DownloadTaskDuration => "download_task_duration_milliseconds"@,
            Histogram::BackendRequestDuration => "backend_request_duration_milliseconds"@,
        }
    }

    /// The family's help text.
    pub open spec fn help(self) -> Seq<char> {
        match self {
            Histogram::UploadTaskDuration => "Histogram of the upload task duration."@,
            Histogram::DownloadTaskDuration => "Histogram of the download task duration."@,
            Histogram::BackendRequestDuration => "Histogram of the backend request duration."@,
        }
    }

    /// The names of the family's labels.
    pub open spec fn label_names(self) -> Seq<Seq<char>> {
        match self {
            Histogram::UploadTaskDuration | Histogram::DownloadTaskDuration => seq!["task_type"@, "task_size_level"@],
            Histogram::BackendRequestDuration => seq!["scheme"@, "method"@],
        }
    }

    /// The family is one that `prometheus` accepts.
    pub proof fn lemma_declarable(self)
        ensures
            is_declarable(full_name(self.name()), self.help(), self.label_names()),
    {
        match self {
            Histogram::UploadTaskDuration => {
                reveal_strlit("upload_task_duration_milliseconds");
                reveal_strlit("Histogram of the upload task duration.");
            },
            Histogram::DownloadTaskDuration => {
                reveal_strlit("download_task_duration_milliseconds");
                reveal_strlit("Histogram of the download task duration.");
            },
            Histogram::BackendRequestDuration => {
                reveal_strlit("backend_request_duration_milliseconds");
                reveal_strlit("Histogram of the backend request duration.");
            },
        }
        lemma_full_name(self.name());
        lemma_label_names();
    }

    /// What the family is declared with.
    pub fn declaration(self) -> (d: Declaration)
        ensures
            d.name@ == self.name(),
            d.help@ == self.help(),
            label_seq(d.label_names@) == self.label_names(),
    {
        match self {
            Histogram::UploadTaskDuration => Declaration {
                name: "upload_task_duration_milliseconds",
                help: "Histogram of the upload task duration.",
                label_names: labels2("task_type", "task_size_level"),
            },
            Histogram::DownloadTaskDuration => Declaration {
                name: "download_task_duration_milliseconds",
                help: "Histogram of the download task duration.",
                label_names: labels2("task_type", "task_size_level"),
            },
            Histogram::BackendRequestDuration => Declaration {
                name: "backend_request_duration_milliseconds",
                help: "Histogram of the backend request duration.",
                label_names: labels2("scheme", "method"),
            },
        }
    }
}

/// The upper bound of the lowest bucket of every histogram.
pub const BUCKET_START: u32 = 1;

/// The factor from one bucket's upper bound to the next.
pub const BUCKET_FACTOR: u32 = 2;

/// The number of buckets of every histogram, not counting the unbounded one.
pub const BUCKET_COUNT: usize = 24;

} // verus!
