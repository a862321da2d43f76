//! What the metrics endpoint decides: how it starts, what a scrape and a reset
//! return, and when it stops. Binding the address, serving requests and waiting for
//! the shutdown signal are the caller's part.

use vstd::prelude::*;
use vstd::string::StringExecFns;
use crate::collect::{collect_disk_metrics, with_disk, DiskStats};
use crate::declare::Gauge;
use crate::registry::{
    family_names, name_at, names_before, register_custom_metrics, reset_custom_metrics,
    MetricRegistry, MetricsState, RegisterError,
};
use crate::text::labels4;

verus! {

/// The build that is running.
#[derive(Debug, Clone, Copy)]
pub struct BuildInfo<'a> {
    /// The version of the package.
    pub version: &'a str,
    /// The short hash of the commit, where it is known.
    pub commit: Option<&'a str>,
    /// The platform the build was made for.
    pub platform: &'a str,
    /// When the build was made, where it is known.
    pub build_time: Option<&'a str>,
}

/// What stands for a part of the build that is not known.
pub open spec fn or_unknown(part: Option<&str>) -> Seq<char> {
    match part {
        Some(part) => part@,
        None => "unknown"@,
    }
}

impl<'a> BuildInfo<'a> {
    /// The label values under which the build is shown: version, commit, platform
    /// and build time, with "unknown" for a part that is not known.
    pub open spec fn label_values(self) -> Seq<Seq<char>> {
        seq![self.version@, or_unknown(self.commit), self.platform@, or_unknown(self.build_time)]
    }
}

/// Whether the endpoint serves.
#[derive(Debug, Clone, Copy, PartialEq, Eq, Structural)]
pub enum ServerState {
    /// The endpoint answers scrapes and resets.
    Running,
    /// The endpoint has stopped for good.
    Stopped,
}

/// What ends the serving of requests.
#[derive(Debug, Clone, Copy, PartialEq, Eq, Structural)]
pub enum ServerEvent {
    /// The serve loop returned by itself.
    ServeEnded,
    /// The shutdown signal arrived.
    ShutdownSignaled,
}

impl ServerState {
    /// The state after an event. The serve loop and the shutdown signal race, and
    /// whichever comes first stops the endpoint: requests in flight are not waited
    /// for, and a stopped endpoint stays stopped.
    pub fn after(self, event: ServerEvent) -> (next: ServerState)
        ensures
            next == ServerState::Stopped,
    {
        match event {
            ServerEvent::ServeEnded => ServerState::Stopped,
            ServerEvent::ShutdownSignaled => ServerState::Stopped,
        }
    }
}

/// The answer to a scrape.
#[derive(Debug)]
pub struct MetricsPage {
    /// The response body: the counter and gauge families, then the text of the
    /// duration histograms, then that of the runtime's own metrics.
    pub body: String,
    /// Whether the encoder wrote all that it had to write, which it always does.
    pub complete: bool,
}

/// The state in which the endpoint starts to serve: every family is registered, and
/// the version gauge stands at 1 under the labels of the build.
pub open spec fn started(state: MetricsState, build: BuildInfo) -> MetricsState {
    MetricsState { registered: state.registered.union(family_names()), ..state }.assign(
        Gauge::Version,
        build.label_values(),
        1,
    )
}

fn part_or_unknown<'a>(part: Option<&'a str>) -> (text: &'a str)
    ensures
        text@ == or_unknown(part),
{
    match part {
        Some(part) => part,
        None => "unknown",
    }
}

/// Prepares the endpoint, on a registry with nothing registered: registers every
/// family and sets the version gauge to 1 under the labels of the build. Where
/// `prometheus` refuses a family, the error says which, the version gauge is left
/// alone and the endpoint must not be started.
pub fn start(registry: &mut MetricRegistry, build: &BuildInfo) -> (r: Result<(), RegisterError>)
    requires
        old(registry).wf(),
        old(registry)@.registered.disjoint(family_names()),
    ensures
        final(registry).wf(),
        (r is Ok) == old(registry)@.takes_all(),
        r is Ok ==> final(registry)@ == started(old(registry)@, *build),
        r is Err ==> final(registry)@.counters == old(registry)@.counters,
        r is Err ==> final(registry)@.gauges == old(registry)@.gauges,
        r matches Err(e) ==> exists|turn: nat|
            {
                &&& #[trigger] old(registry)@.stops_at(turn)
                &&& e.family@ == name_at(turn)
                &&& final(registry)@.registered == old(registry)@.registered.union(names_before(turn))
            },
{
    match register_custom_metrics(registry) {
        Ok(()) => {},
        Err(e) => {
            return Err(e);
        },
    }
    let labels = labels4(
        build.version,
        part_or_unknown(build.commit),
        build.platform,
        part_or_unknown(build.build_time),
    );
    registry.set(Gauge::Version, &labels, 1);
    Ok(())
}

/// Answers a scrape. The disk gauges are brought up to date from a probe made just
/// before (`None` for one that failed). The body names every registered family:
/// it is what `prometheus` writes for the families that have a series, then the
/// header of each registered family that has none, then the two texts that the
/// caller gathered, that of the duration histograms and that of the runtime's own
/// metrics.
pub fn get_metrics_handler(
    registry: &mut MetricRegistry,
    disk: Option<DiskStats>,
    durations: &str,
    runtime: &str,
) -> (page: MetricsPage)
    requires
        old(registry).wf(),
    ensures
        final(registry).wf(),
        final(registry)@ == with_disk(old(registry)@, disk),
        page.body@ == final(registry)@.page() + durations@ + runtime@,
        page.complete,
{
    collect_disk_metrics(registry, disk);
    let custom = registry.gather();
    let mut body = custom.text;
    body.append(durations);
    body.append(runtime);
    MetricsPage { body, complete: custom.complete }
}

/// Answers a reset: every series of every family is removed, and the body is
/// empty. The families stay registered, so later events show up in later scrapes.
pub fn delete_metrics_handler(registry: &mut MetricRegistry) -> (body: Vec<u8>)
    requires
        old(registry).wf(),
    ensures
        final(registry).wf(),
        final(registry)@ == old(registry)@.cleared(),
        body@.len() == 0,
{
    reset_custom_metrics(registry);
    Vec::new()
}

} // verus!
