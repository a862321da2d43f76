use dragonfly_client_metrics::collect::{
    collect_disk_metrics, collect_upload_task_finished_metrics,
    collect_upload_task_started_metrics, DiskStats, Observation,
};
use dragonfly_client_metrics::declare::{
    Counter, Gauge, Histogram, BUCKET_COUNT, BUCKET_FACTOR, BUCKET_START,
};
use dragonfly_client_metrics::registry::{register_custom_metrics, MetricRegistry};
use dragonfly_client_metrics::server::{
    delete_metrics_handler, get_metrics_handler, start, BuildInfo, ServerEvent, ServerState,
};
use prometheus::{HistogramOpts, HistogramVec, Registry, TextEncoder};
use std::time::Duration;

const BUILD: BuildInfo<'static> = BuildInfo {
    version: "0.1.2",
    commit: Some("abc1234"),
    platform: "x86_64-unknown-linux-gnu",
    build_time: Some("2024-05-01"),
};

const VERSION: &str = "dragonfly_client_version{build_time=\"2024-05-01\",git_commit=\"abc1234\",git_version=\"0.1.2\",platform=\"x86_64-unknown-linux-gnu\"}";

fn value(text: &str, series: &str) -> Option<String> {
    text.lines().find_map(|line| {
        line.strip_prefix(series).and_then(|rest| rest.strip_prefix(' ')).map(|v| v.to_string())
    })
}

/// The duration histograms, as the caller of the library keeps them.
struct Durations {
    registry: Registry,
    upload: HistogramVec,
}

impl Durations {
    fn new() -> Durations {
        let d = Histogram::UploadTaskDuration.declaration();
        let buckets =
            prometheus::exponential_buckets(BUCKET_START as f64, BUCKET_FACTOR as f64, BUCKET_COUNT)
                .unwrap();
        let opts = HistogramOpts::new(d.name, d.help)
            .namespace("dragonfly")
            .subsystem("client")
            .buckets(buckets);
        let upload = HistogramVec::new(opts, &d.label_names).unwrap();
        let registry = Registry::new();
        registry.register(Box::new(upload.clone())).unwrap();
        Durations { registry, upload }
    }

    fn observe(&self, o: &Observation) {
        assert_eq!(o.histogram, Histogram::UploadTaskDuration);
        let values: Vec<&str> = o.label_values.iter().map(|v| v.as_str()).collect();
        self.upload.with_label_values(&values).observe(o.millis as f64);
    }

    fn text(&self) -> String {
        TextEncoder::new().encode_to_string(&self.registry.gather()).unwrap()
    }
}

#[test]
fn starting_registers_the_families_and_shows_the_build() {
    let mut registry = MetricRegistry::new();
    assert!(start(&mut registry, &BUILD).is_ok());
    let page = get_metrics_handler(&mut registry, None, "", "");
    assert!(page.complete);
    assert_eq!(value(&page.body, VERSION).as_deref(), Some("1"));
    assert!(page.body.contains("# HELP dragonfly_client_version Version info of the service.\n"));
    assert!(page.body.contains("# TYPE dragonfly_client_version gauge\n"));
}

#[test]
fn an_unknown_commit_and_build_time_are_shown_as_unknown() {
    let mut registry = MetricRegistry::new();
    let build = BuildInfo { version: "2.0.0", commit: None, platform: "aarch64", build_time: None };
    assert!(start(&mut registry, &build).is_ok());
    let page = get_metrics_handler(&mut registry, None, "", "");
    let series = "dragonfly_client_version{build_time=\"unknown\",git_commit=\"unknown\",git_version=\"2.0.0\",platform=\"aarch64\"}";
    assert_eq!(value(&page.body, series).as_deref(), Some("1"));
}

#[test]
fn the_endpoint_is_started_on_a_registry_with_nothing_registered() {
    let mut registry = MetricRegistry::new();
    assert!(registry.nothing_registered());
    assert!(start(&mut registry, &BUILD).is_ok());
    assert!(!registry.nothing_registered());

    let mut registry = MetricRegistry::new();
    assert!(register_custom_metrics(&mut registry).is_ok());
    assert!(!registry.nothing_registered());
    let page = get_metrics_handler(&mut registry, None, "", "");
    assert_eq!(value(&page.body, VERSION), None);
}

#[test]
fn a_scrape_probes_the_disk_and_appends_the_other_texts() {
    let mut registry = MetricRegistry::new();
    assert!(start(&mut registry, &BUILD).is_ok());
    let disk = Some(DiskStats { total_space: 100, available_space: 30 });
    let page = get_metrics_handler(&mut registry, disk, "durations\n", "runtime\n");
    assert!(page.complete);
    assert_eq!(value(&page.body, "dragonfly_client_disk_space_total").as_deref(), Some("100"));
    assert_eq!(value(&page.body, "dragonfly_client_disk_usage_space_total").as_deref(), Some("70"));
    assert!(page.body.contains("70\n# HELP dragonfly_client_version Version info of the service.\n# TYPE dragonfly_client_version gauge\ndragonfly_client_version{build_time=\"2024-05-01\",git_commit=\"abc1234\",git_version=\"0.1.2\",platform=\"x86_64-unknown-linux-gnu\"} 1\n# HELP dragonfly_client_concurrent_upload_task_total "));
    assert!(page.body.ends_with("# TYPE dragonfly_client_delete_host_failure_total counter\ndurations\nruntime\n"));

    let custom = registry.gather().text;
    let page = get_metrics_handler(&mut registry, None, "d", "r");
    assert_eq!(page.body, format!("{}dr", custom));
    assert_eq!(value(&page.body, "dragonfly_client_disk_space_total").as_deref(), Some("100"));
}

/// The families that a body names, in the order in which it names them.
fn named(body: &str) -> Vec<String> {
    body.lines()
        .filter_map(|line| line.strip_prefix("# TYPE dragonfly_client_"))
        .map(|rest| rest.split(' ').next().unwrap().to_string())
        .collect()
}

/// The names of all the counter and gauge families, sorted.
fn declared() -> Vec<String> {
    let mut names = Vec::new();
    for i in 0..Gauge::COUNT {
        names.push(Gauge::nth(i).declaration().name.to_string());
    }
    for i in 0..Counter::COUNT {
        names.push(Counter::nth(i).declaration().name.to_string());
    }
    names.sort();
    names
}

#[test]
fn a_reset_answers_with_an_empty_body_and_clears_the_families() {
    let mut registry = MetricRegistry::new();
    assert!(start(&mut registry, &BUILD).is_ok());
    collect_upload_task_started_metrics(&mut registry, 1, "t", "a");
    let series = "dragonfly_client_upload_task_total{app=\"a\",tag=\"t\",type=\"1\"}";
    let page = get_metrics_handler(&mut registry, None, "", "");
    assert_eq!(value(&page.body, series).as_deref(), Some("1"));

    let body = delete_metrics_handler(&mut registry);
    assert!(body.is_empty());
    let page = get_metrics_handler(&mut registry, None, "", "runtime\n");
    assert!(page.complete);
    assert!(page.body.ends_with("counter\nruntime\n"));
    assert_eq!(value(&page.body, series), None);
    assert_eq!(value(&page.body, VERSION), None);

    let body = delete_metrics_handler(&mut registry);
    assert!(body.is_empty());
    assert_eq!(get_metrics_handler(&mut registry, None, "", "runtime\n").body, page.body);

    collect_upload_task_started_metrics(&mut registry, 1, "t", "a");
    let page = get_metrics_handler(&mut registry, None, "", "");
    assert_eq!(value(&page.body, series).as_deref(), Some("1"));
}

#[test]
fn a_scrape_after_a_reset_names_every_family_and_shows_no_value() {
    let mut registry = MetricRegistry::new();
    assert!(start(&mut registry, &BUILD).is_ok());
    collect_upload_task_started_metrics(&mut registry, 1, "t", "a");
    collect_disk_metrics(&mut registry, Some(DiskStats { total_space: 9, available_space: 1 }));
    delete_metrics_handler(&mut registry);

    let page = get_metrics_handler(&mut registry, None, "", "");
    let mut names = named(&page.body);
    names.sort();
    assert_eq!(names, declared());
    assert!(page.body.lines().all(|line| line.starts_with("# HELP ") || line.starts_with("# TYPE ")));
    assert!(page.body.contains(
        "# HELP dragonfly_client_upload_task_total Counter of the number of the upload task.\n# TYPE dragonfly_client_upload_task_total counter\n"
    ));
    assert!(page.body.contains(
        "# HELP dragonfly_client_version Version info of the service.\n# TYPE dragonfly_client_version gauge\n"
    ));

    let disk = Some(DiskStats { total_space: 8, available_space: 8 });
    let page = get_metrics_handler(&mut registry, disk, "", "");
    let mut names = named(&page.body);
    names.sort();
    assert_eq!(names, declared());
    let samples: Vec<&str> = page.body.lines().filter(|line| !line.starts_with('#')).collect();
    assert_eq!(
        samples,
        vec!["dragonfly_client_disk_space_total 8", "dragonfly_client_disk_usage_space_total 0"]
    );
}

#[test]
fn a_scrape_names_every_family_whatever_has_happened() {
    let mut registry = MetricRegistry::new();
    assert!(start(&mut registry, &BUILD).is_ok());
    let mut names = named(&get_metrics_handler(&mut registry, None, "", "").body);
    names.sort();
    assert_eq!(names, declared());
    collect_upload_task_started_metrics(&mut registry, 1, "t", "a");
    collect_upload_task_started_metrics(&mut registry, 2, "t", "a");
    let mut names = named(&get_metrics_handler(&mut registry, None, "", "").body);
    names.sort();
    assert_eq!(names, declared());
}

#[test]
fn an_upload_shows_up_from_start_to_finish() {
    let mut registry = MetricRegistry::new();
    let durations = Durations::new();
    assert!(start(&mut registry, &BUILD).is_ok());
    let total = "dragonfly_client_upload_task_total{app=\"a\",tag=\"t\",type=\"1\"}";
    let running = "dragonfly_client_concurrent_upload_task_total{app=\"a\",tag=\"t\",type=\"1\"}";

    let page = get_metrics_handler(&mut registry, None, &durations.text(), "");
    assert_eq!(value(&page.body, total), None);
    assert_eq!(value(&page.body, running), None);

    collect_upload_task_started_metrics(&mut registry, 1, "t", "a");
    let page = get_metrics_handler(&mut registry, None, &durations.text(), "");
    assert_eq!(value(&page.body, total).as_deref(), Some("1"));
    assert_eq!(value(&page.body, running).as_deref(), Some("1"));

    let o = collect_upload_task_finished_metrics(&mut registry, 1, "t", "a", 500000, Duration::from_millis(10));
    assert!(!o.slow);
    durations.observe(&o);
    let page = get_metrics_handler(&mut registry, None, &durations.text(), "");
    assert_eq!(value(&page.body, running).as_deref(), Some("0"));
    assert_eq!(value(&page.body, total).as_deref(), Some("1"));
    let histogram = "dragonfly_client_upload_task_duration_milliseconds";
    let labels = "task_size_level=\"1\",task_type=\"1\"";
    assert_eq!(value(&page.body, &format!("{}_count{{{}}}", histogram, labels)).as_deref(), Some("1"));
    assert_eq!(value(&page.body, &format!("{}_sum{{{}}}", histogram, labels)).as_deref(), Some("10"));
    assert_eq!(value(&page.body, &format!("{}_bucket{{{},le=\"8\"}}", histogram, labels)).as_deref(), Some("0"));
    assert_eq!(value(&page.body, &format!("{}_bucket{{{},le=\"16\"}}", histogram, labels)).as_deref(), Some("1"));
    assert_eq!(value(&page.body, &format!("{}_bucket{{{},le=\"8388608\"}}", histogram, labels)).as_deref(), Some("1"));
    assert_eq!(value(&page.body, &format!("{}_bucket{{{},le=\"+Inf\"}}", histogram, labels)).as_deref(), Some("1"));
}

#[test]
fn the_endpoint_stops_on_whichever_comes_first() {
    assert_eq!(ServerState::Running.after(ServerEvent::ShutdownSignaled), ServerState::Stopped);
    assert_eq!(ServerState::Running.after(ServerEvent::ServeEnded), ServerState::Stopped);
    assert_eq!(ServerState::Stopped.after(ServerEvent::ShutdownSignaled), ServerState::Stopped);
    assert_eq!(ServerState::Stopped.after(ServerEvent::ServeEnded), ServerState::Stopped);
}
