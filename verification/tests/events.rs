use dragonfly_client_metrics::collect::{
    collect_backend_request_failure_metrics, collect_backend_request_finished_metrics,
    collect_backend_request_started_metrics, collect_delete_host_failure_metrics,
    collect_delete_host_started_metrics, collect_delete_task_failure_metrics,
    collect_delete_task_started_metrics, collect_disk_metrics,
    collect_download_piece_traffic_metrics, collect_download_task_failure_metrics,
    collect_download_task_finished_metrics, collect_download_task_started_metrics,
    collect_list_task_entries_failure_metrics, collect_list_task_entries_started_metrics,
    collect_prefetch_task_failure_metrics, collect_prefetch_task_started_metrics,
    collect_proxy_request_failure_metrics, collect_proxy_request_started_metrics,
    collect_proxy_request_via_dfdaemon_metrics, collect_stat_task_failure_metrics,
    collect_stat_task_started_metrics, collect_update_task_failure_metrics,
    collect_update_task_started_metrics, collect_upload_piece_failure_metrics,
    collect_upload_piece_finished_metrics, collect_upload_piece_started_metrics,
    collect_upload_piece_traffic_metrics, collect_upload_task_failure_metrics,
    collect_upload_task_finished_metrics, collect_upload_task_started_metrics, is_slow_task,
    DiskStats, Range,
};
use dragonfly_client_metrics::declare::Histogram;
use dragonfly_client_metrics::registry::{register_custom_metrics, MetricRegistry};
use std::time::Duration;

/// The value of a sample in an exposition, where the sample is there.
fn value(registry: &MetricRegistry, series: &str) -> Option<String> {
    registry.gather().text.lines().find_map(|line| {
        line.strip_prefix(series).and_then(|rest| rest.strip_prefix(' ')).map(|v| v.to_string())
    })
}

fn is(registry: &MetricRegistry, series: &str, expected: &str) -> bool {
    value(registry, series).as_deref() == Some(expected)
}

fn fresh() -> MetricRegistry {
    let mut registry = MetricRegistry::new();
    assert!(register_custom_metrics(&mut registry).is_ok());
    registry
}

#[test]
fn upload_task_events_count_and_pair() {
    let mut registry = fresh();
    let total = "dragonfly_client_upload_task_total{app=\"a\",tag=\"t\",type=\"1\"}";
    let failed = "dragonfly_client_upload_task_failure_total{app=\"a\",tag=\"t\",type=\"1\"}";
    let running = "dragonfly_client_concurrent_upload_task_total{app=\"a\",tag=\"t\",type=\"1\"}";

    collect_upload_task_started_metrics(&mut registry, 1, "t", "a");
    assert!(is(&registry, total, "1"));
    assert!(is(&registry, running, "1"));
    assert_eq!(value(&registry, failed), None);

    collect_upload_task_started_metrics(&mut registry, 1, "t", "a");
    assert!(is(&registry, total, "2"));
    assert!(is(&registry, running, "2"));

    let o = collect_upload_task_finished_metrics(&mut registry, 1, "t", "a", 500000, Duration::from_millis(10));
    assert_eq!(o.histogram, Histogram::UploadTaskDuration);
    assert_eq!(o.label_values, vec!["1", "1"]);
    assert_eq!(o.millis, 10);
    assert!(!o.slow);
    assert!(is(&registry, total, "2"));
    assert!(is(&registry, running, "1"));

    collect_upload_task_failure_metrics(&mut registry, 1, "t", "a");
    assert!(is(&registry, total, "2"));
    assert!(is(&registry, failed, "1"));
    assert!(is(&registry, running, "0"));
}

#[test]
fn upload_tasks_with_other_labels_have_their_own_series() {
    let mut registry = fresh();
    collect_upload_task_started_metrics(&mut registry, 1, "t", "a");
    collect_upload_task_started_metrics(&mut registry, 2, "t", "a");
    collect_upload_task_started_metrics(&mut registry, -3, "x", "");
    assert!(is(&registry, "dragonfly_client_upload_task_total{app=\"a\",tag=\"t\",type=\"1\"}", "1"));
    assert!(is(&registry, "dragonfly_client_upload_task_total{app=\"a\",tag=\"t\",type=\"2\"}", "1"));
    assert!(is(&registry, "dragonfly_client_upload_task_total{app=\"\",tag=\"x\",type=\"-3\"}", "1"));
    assert!(is(&registry, "dragonfly_client_concurrent_upload_task_total{app=\"\",tag=\"x\",type=\"-3\"}", "1"));
}

#[test]
fn a_finished_upload_is_observed_under_the_level_of_its_content() {
    let mut registry = fresh();
    let o = collect_upload_task_finished_metrics(&mut registry, 7, "t", "a", 0, Duration::from_millis(3));
    assert_eq!(o.label_values, vec!["7", "0"]);
    let o = collect_upload_task_finished_metrics(&mut registry, 7, "t", "a", 1048576, Duration::from_millis(3));
    assert_eq!(o.label_values, vec!["7", "2"]);
    let o = collect_upload_task_finished_metrics(&mut registry, 7, "t", "a", u64::MAX, Duration::from_secs(2));
    assert_eq!(o.label_values, vec!["7", "20"]);
    assert_eq!(o.millis, 2000);
    assert!(!o.slow);
    assert!(is(&registry, "dragonfly_client_concurrent_upload_task_total{app=\"a\",tag=\"t\",type=\"7\"}", "-3"));
}

#[test]
fn a_small_task_is_slow_beyond_half_a_second() {
    assert!(!is_slow_task(500000, Duration::from_millis(499)));
    assert!(!is_slow_task(500000, Duration::from_millis(500)));
    assert!(is_slow_task(500000, Duration::new(0, 500_000_001)));
    assert!(is_slow_task(500000, Duration::from_millis(501)));
    assert!(is_slow_task(1, Duration::from_secs(3600)));
    assert!(is_slow_task(1048575, Duration::from_millis(501)));
    assert!(!is_slow_task(1048576, Duration::from_millis(501)));
    assert!(!is_slow_task(0, Duration::from_millis(501)));
    assert!(!is_slow_task(u64::MAX, Duration::from_secs(3600)));

    let mut registry = fresh();
    let o = collect_upload_task_finished_metrics(&mut registry, 1, "t", "a", 10, Duration::from_millis(750));
    assert!(o.slow);
    assert_eq!(o.millis, 750);
    let o = collect_upload_task_finished_metrics(&mut registry, 1, "t", "a", 10, Duration::new(0, 500_999_999));
    assert!(o.slow);
    assert_eq!(o.millis, 500);
    let o = collect_download_task_finished_metrics(&mut registry, 1, "t", "a", "p", 10, None, Duration::from_millis(750));
    assert!(o.slow);
    let o = collect_download_task_finished_metrics(&mut registry, 1, "t", "a", "p", 10 << 20, None, Duration::from_millis(750));
    assert!(!o.slow);
}

#[test]
fn download_task_events_count_and_pair() {
    let mut registry = fresh();
    let labels = "{app=\"a\",priority=\"3\",tag=\"t\",type=\"2\"}";
    let total = format!("dragonfly_client_download_task_total{}", labels);
    let failed = format!("dragonfly_client_download_task_failure_total{}", labels);
    let running = format!("dragonfly_client_concurrent_download_task_total{}", labels);

    collect_download_task_started_metrics(&mut registry, 2, "t", "a", "3");
    collect_download_task_started_metrics(&mut registry, 2, "t", "a", "3");
    assert!(is(&registry, &total, "2"));
    assert!(is(&registry, &running, "2"));

    let o = collect_download_task_finished_metrics(&mut registry, 2, "t", "a", "3", 4096, None, Duration::from_millis(25));
    assert_eq!(o.histogram, Histogram::DownloadTaskDuration);
    assert_eq!(o.label_values, vec!["2", "1"]);
    assert_eq!(o.millis, 25);
    assert!(!o.slow);
    assert!(is(&registry, &running, "1"));

    collect_download_task_failure_metrics(&mut registry, 2, "t", "a", "3");
    assert!(is(&registry, &failed, "1"));
    assert!(is(&registry, &running, "0"));
    assert!(is(&registry, &total, "2"));
}

#[test]
fn a_range_takes_precedence_over_the_content_length() {
    let mut registry = fresh();
    let whole = 8 << 30;
    let o = collect_download_task_finished_metrics(&mut registry, 2, "t", "a", "3", whole, None, Duration::from_millis(600));
    assert_eq!(o.label_values, vec!["2", "13"]);
    assert!(!o.slow);
    let range = Range { start: 1 << 20, length: 100 };
    let o = collect_download_task_finished_metrics(&mut registry, 2, "t", "a", "3", whole, Some(range), Duration::from_millis(600));
    assert_eq!(o.label_values, vec!["2", "1"]);
    assert!(o.slow);
    let range = Range { start: 0, length: 0 };
    let o = collect_download_task_finished_metrics(&mut registry, 2, "t", "a", "3", whole, Some(range), Duration::from_millis(600));
    assert_eq!(o.label_values, vec!["2", "0"]);
    assert!(!o.slow);
}

#[test]
fn prefetch_task_events_count() {
    let mut registry = fresh();
    let labels = "{app=\"a\",priority=\"0\",tag=\"\",type=\"1\"}";
    collect_prefetch_task_started_metrics(&mut registry, 1, "", "a", "0");
    collect_prefetch_task_started_metrics(&mut registry, 1, "", "a", "0");
    collect_prefetch_task_failure_metrics(&mut registry, 1, "", "a", "0");
    assert!(is(&registry, &format!("dragonfly_client_prefetch_task_total{}", labels), "2"));
    assert!(is(&registry, &format!("dragonfly_client_prefetch_task_failure_total{}", labels), "1"));
    assert_eq!(value(&registry, &format!("dragonfly_client_concurrent_download_task_total{}", labels)), None);
}

#[test]
fn piece_traffic_adds_up_in_bytes() {
    let mut registry = fresh();
    collect_download_piece_traffic_metrics(&mut registry, "REMOTE_PEER", 1, 4096);
    collect_download_piece_traffic_metrics(&mut registry, "REMOTE_PEER", 1, 1000);
    collect_download_piece_traffic_metrics(&mut registry, "BACK_TO_SOURCE", 1, 7);
    collect_download_piece_traffic_metrics(&mut registry, "REMOTE_PEER", 1, 0);
    assert!(is(&registry, "dragonfly_client_download_traffic{task_type=\"1\",type=\"REMOTE_PEER\"}", "5096"));
    assert!(is(&registry, "dragonfly_client_download_traffic{task_type=\"1\",type=\"BACK_TO_SOURCE\"}", "7"));

    collect_upload_piece_traffic_metrics(&mut registry, 2, 10);
    collect_upload_piece_traffic_metrics(&mut registry, 2, 20);
    assert!(is(&registry, "dragonfly_client_upload_traffic{task_type=\"2\"}", "30"));
}

#[test]
fn piece_uploads_in_progress_go_up_and_down() {
    let mut registry = fresh();
    let running = "dragonfly_client_concurrent_upload_piece_total";
    collect_upload_piece_started_metrics(&mut registry);
    collect_upload_piece_started_metrics(&mut registry);
    collect_upload_piece_started_metrics(&mut registry);
    assert!(is(&registry, running, "3"));
    collect_upload_piece_finished_metrics(&mut registry);
    assert!(is(&registry, running, "2"));
    collect_upload_piece_failure_metrics(&mut registry);
    assert!(is(&registry, running, "1"));
    collect_upload_piece_finished_metrics(&mut registry);
    assert!(is(&registry, running, "0"));
}

#[test]
fn backend_request_events_count() {
    let mut registry = fresh();
    collect_backend_request_started_metrics(&mut registry, "http", "GET");
    collect_backend_request_started_metrics(&mut registry, "http", "GET");
    collect_backend_request_started_metrics(&mut registry, "s3", "HEAD");
    collect_backend_request_failure_metrics(&mut registry, "http", "GET");
    assert!(is(&registry, "dragonfly_client_backend_request_total{method=\"GET\",scheme=\"http\"}", "2"));
    assert!(is(&registry, "dragonfly_client_backend_request_total{method=\"HEAD\",scheme=\"s3\"}", "1"));
    assert!(is(&registry, "dragonfly_client_backend_request_failure_total{method=\"GET\",scheme=\"http\"}", "1"));

    let before = registry.gather().text;
    let o = collect_backend_request_finished_metrics("http", "GET", Duration::new(1, 999_999));
    assert_eq!(o.histogram, Histogram::BackendRequestDuration);
    assert_eq!(o.label_values, vec!["http", "GET"]);
    assert_eq!(o.millis, 1000);
    assert!(!o.slow);
    assert_eq!(registry.gather().text, before);
}

#[test]
fn proxy_request_events_count() {
    let mut registry = fresh();
    collect_proxy_request_started_metrics(&mut registry);
    collect_proxy_request_started_metrics(&mut registry);
    collect_proxy_request_started_metrics(&mut registry);
    collect_proxy_request_failure_metrics(&mut registry);
    collect_proxy_request_via_dfdaemon_metrics(&mut registry);
    collect_proxy_request_via_dfdaemon_metrics(&mut registry);
    assert!(is(&registry, "dragonfly_client_proxy_request_total", "3"));
    assert!(is(&registry, "dragonfly_client_proxy_request_failure_total", "1"));
    assert!(is(&registry, "dragonfly_client_proxy_request_via_dfdaemon_total", "2"));
}

#[test]
fn task_operations_count_by_type() {
    let mut registry = fresh();
    collect_update_task_started_metrics(&mut registry, 1);
    collect_update_task_failure_metrics(&mut registry, 1);
    collect_stat_task_started_metrics(&mut registry, 2);
    collect_stat_task_started_metrics(&mut registry, 2);
    collect_stat_task_failure_metrics(&mut registry, 2);
    collect_list_task_entries_started_metrics(&mut registry, 3);
    collect_list_task_entries_failure_metrics(&mut registry, 3);
    collect_delete_task_started_metrics(&mut registry, 4);
    collect_delete_task_failure_metrics(&mut registry, i32::MIN);
    assert!(is(&registry, "dragonfly_client_update_task_total{type=\"1\"}", "1"));
    assert!(is(&registry, "dragonfly_client_update_task_failure_total{type=\"1\"}", "1"));
    assert!(is(&registry, "dragonfly_client_stat_task_total{type=\"2\"}", "2"));
    assert!(is(&registry, "dragonfly_client_stat_task_failure_total{type=\"2\"}", "1"));
    assert!(is(&registry, "dragonfly_client_list_task_entries_total{type=\"3\"}", "1"));
    assert!(is(&registry, "dragonfly_client_list_task_entries_failure_total{type=\"3\"}", "1"));
    assert!(is(&registry, "dragonfly_client_delete_task_total{type=\"4\"}", "1"));
    assert!(is(&registry, "dragonfly_client_delete_task_failure_total{type=\"-2147483648\"}", "1"));
}

#[test]
fn host_deletions_count() {
    let mut registry = fresh();
    collect_delete_host_started_metrics(&mut registry);
    collect_delete_host_started_metrics(&mut registry);
    collect_delete_host_failure_metrics(&mut registry);
    assert!(is(&registry, "dragonfly_client_delete_host_total", "2"));
    assert!(is(&registry, "dragonfly_client_delete_host_failure_total", "1"));
}

#[test]
fn a_disk_probe_sets_size_and_usage() {
    let mut registry = fresh();
    let before = registry.gather().text;
    collect_disk_metrics(&mut registry, None);
    assert_eq!(registry.gather().text, before);
    assert_eq!(value(&registry, "dragonfly_client_disk_space_total"), None);
    assert_eq!(value(&registry, "dragonfly_client_disk_usage_space_total"), None);

    collect_disk_metrics(&mut registry, Some(DiskStats { total_space: 1000, available_space: 400 }));
    assert!(is(&registry, "dragonfly_client_disk_space_total", "1000"));
    assert!(is(&registry, "dragonfly_client_disk_usage_space_total", "600"));

    collect_disk_metrics(&mut registry, None);
    assert!(is(&registry, "dragonfly_client_disk_space_total", "1000"));
    assert!(is(&registry, "dragonfly_client_disk_usage_space_total", "600"));

    collect_disk_metrics(&mut registry, Some(DiskStats { total_space: 2000, available_space: 2000 }));
    assert!(is(&registry, "dragonfly_client_disk_space_total", "2000"));
    assert!(is(&registry, "dragonfly_client_disk_usage_space_total", "0"));
}

#[test]
fn disk_numbers_are_taken_as_signed_numbers_of_64_bits() {
    let mut registry = fresh();
    collect_disk_metrics(&mut registry, Some(DiskStats { total_space: u64::MAX, available_space: 0 }));
    assert!(is(&registry, "dragonfly_client_disk_space_total", "-1"));
    assert!(is(&registry, "dragonfly_client_disk_usage_space_total", "-1"));
    collect_disk_metrics(&mut registry, Some(DiskStats { total_space: 5, available_space: 7 }));
    assert!(is(&registry, "dragonfly_client_disk_space_total", "5"));
    assert!(is(&registry, "dragonfly_client_disk_usage_space_total", "-2"));
}
