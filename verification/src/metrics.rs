//! Metrics: how many requests came, how long they took and how many are under way.
use crate::fnv;
use crate::reply;
use crate::reply::ErrorResponse;
use crate::text;
use prometheus::proto::MetricFamily;
use prometheus::{Encoder, HistogramOpts, HistogramVec, IntCounterVec, IntGauge};
use prometheus::{Opts, Registry, TextEncoder};
use vstd::prelude::*;
use vstd::string::StringExecFns;

verus! {

/// What a metric is called, what it is about, and the names of the labels that tell its series
/// apart.
pub struct Description {
    pub name: Seq<char>,
    pub help: Seq<char>,
    pub labels: Seq<Seq<char>>,
}

/// Whether `c` can start the name of a label.
pub open spec fn starts_label(c: char) -> bool {
    'a' <= c <= 'z' || 'A' <= c <= 'Z' || c == '_'
}

/// Whether `s` can be the name of a label.
pub open spec fn is_label_name(s: Seq<char>) -> bool {
    &&& s.len() > 0
    &&& starts_label(s[0])
    &&& forall|i: int| 0 <= i < s.len() ==> starts_label(#[trigger] s[i]) || '0' <= s[i] <= '9'
}

/// Whether `s` can be the name of a metric.
pub open spec fn is_metric_name(s: Seq<char>) -> bool {
    &&& s.len() > 0
    &&& starts_label(s[0]) || s[0] == ':'
    &&& forall|i: int|
        0 <= i < s.len() ==> starts_label(#[trigger] s[i]) || s[i] == ':' || '0' <= s[i] <= '9'
}

impl Description {
    /// Whether there can be a metric with this description.
    pub open spec fn is_valid(self) -> bool {
        &&& self.help.len() > 0
        &&& is_metric_name(self.name)
        &&& forall|i: int| 0 <= i < self.labels.len() ==> is_label_name(#[trigger] self.labels[i])
        &&& self.labels.no_duplicates()
    }
}

/// Texts as sequences of characters.
pub open spec fn texts(values: Seq<&str>) -> Seq<Seq<char>> {
    values.map_values(|value: &str| value@)
}

/// The number after `n`, where the largest is followed by zero.
pub open spec fn next_u64(n: u64) -> u64 {
    if n == u64::MAX {
        0
    } else {
        (n + 1) as u64
    }
}

/// The number after `n`, where the largest is followed by the smallest.
pub open spec fn next_i64(n: i64) -> i64 {
    if n == i64::MAX {
        i64::MIN
    } else {
        (n + 1) as i64
    }
}

/// The number before `n`, where the smallest is preceded by the largest.
pub open spec fn previous_i64(n: i64) -> i64 {
    if n == i64::MIN {
        i64::MAX
    } else {
        (n - 1) as i64
    }
}

/// Under which key a vector of metrics keeps the series with these label values: a hash of the
/// values, written one after the other. Values that then read the same have the same key.
pub open spec fn series_key(values: Seq<Seq<char>>) -> u64 {
    fnv::hash(vstd::utf8::encode_utf8(values.flatten()))
}

/// One series of a vector of counters: the label values that it was made for, and how far it has
/// counted.
pub struct CountedSeries {
    pub labels: Seq<Seq<char>>,
    pub count: u64,
}

/// A vector of counters, one for each combination of label values that was counted.
#[verifier::external_body]
pub struct CounterVec {
    inner: IntCounterVec,
}

/// What the vector of counters was made with.
pub uninterp spec fn counter_description(counters: CounterVec) -> Description;

/// The series of the vector of counters, each under the key of its label values.
pub uninterp spec fn counter_series(counters: CounterVec) -> Map<u64, CountedSeries>;

/// Which vector of counters this is: a number that it shares with nothing but what a registry
/// holds of it.
pub uninterp spec fn counter_identity(counters: CounterVec) -> int;

/// `series` after one more was counted under these label values.
pub open spec fn counted(series: Map<u64, CountedSeries>, values: Seq<Seq<char>>) -> Map<
    u64,
    CountedSeries,
> {
    let key = series_key(values);
    series.insert(
        key,
        if series.contains_key(key) {
            CountedSeries { labels: series[key].labels, count: next_u64(series[key].count) }
        } else {
            CountedSeries { labels: values, count: 1 }
        },
    )
}

/// Calls `IntCounterVec::new` with the options that `Opts::new` makes of `name` and `help`: a
/// vector without series, unless the description is not valid.
#[verifier::external_body]
fn new_counters(name: &str, help: &str, labels: &Vec<&str>) -> (r: Result<CounterVec, String>)
    ensures
        match r {
            Ok(counters) => {
                &&& counter_description(counters).is_valid()
                &&& counter_description(counters) == Description {
                    name: name@,
                    help: help@,
                    labels: texts(labels@),
                }
                &&& counter_series(counters) == Map::<u64, CountedSeries>::empty()
            },
            Err(_) => !(Description { name: name@, help: help@, labels: texts(labels@) }).is_valid(),
        },
{
    let counters = IntCounterVec::new(Opts::new(name, help), labels);
    counters.map(|inner| CounterVec { inner }).map_err(|e| e.to_string())
}

/// Calls `with_label_values` and then `inc`: the series with the key of these values counts one
/// further, and is made for them if there is none. The vector is reached through nothing but this
/// value and a registry, which only reads it.
#[verifier::external_body]
fn count(counters: &mut CounterVec, values: &Vec<&str>)
    requires
        values@.len() == counter_description(*old(counters)).labels.len(),
    ensures
        counter_description(*final(counters)) == counter_description(*old(counters)),
        counter_identity(*final(counters)) == counter_identity(*old(counters)),
        counter_series(*final(counters)) == counted(
            counter_series(*old(counters)),
            texts(values@),
        ),
{
    counters.inner.with_label_values(values).inc();
}

/// A vector of histograms, one for each combination of label values that was observed.
#[verifier::external_body]
pub struct DurationVec {
    inner: HistogramVec,
}

/// What the vector of histograms was made with.
pub uninterp spec fn duration_description(durations: DurationVec) -> Description;

/// One series of a vector of histograms: the label values that it was made for, for each bound
/// how many durations were within it, and how many durations there were in all.
pub struct TimedSeries {
    pub labels: Seq<Seq<char>>,
    pub within: Seq<nat>,
    pub total: nat,
}

/// The series of the vector of histograms, each under the key of its label values.
pub uninterp spec fn duration_series(durations: DurationVec) -> Map<u64, TimedSeries>;

/// Which vector of histograms this is: a number that it shares with nothing but what a registry
/// holds of it.
pub uninterp spec fn duration_identity(durations: DurationVec) -> int;

/// The upper bounds of a histogram, in nanoseconds.
pub open spec fn bounds() -> Seq<int> {
    seq![
        5_000_000,
        10_000_000,
        25_000_000,
        50_000_000,
        100_000_000,
        250_000_000,
        500_000_000,
        1_000_000_000,
        2_500_000_000,
        5_000_000_000,
        10_000_000_000,
    ]
}

/// What has been observed after one more duration: it is within each bound that it does not exceed.
pub open spec fn observed_by(before: TimedSeries, nanos: u64) -> TimedSeries {
    TimedSeries {
        labels: before.labels,
        within: Seq::new(
            bounds().len(),
            |i: int|
                if nanos <= bounds()[i] {
                    before.within[i] + 1
                } else {
                    before.within[i]
                },
        ),
        total: before.total + 1,
    }
}

/// A series for these label values that has observed nothing.
pub open spec fn unobserved(values: Seq<Seq<char>>) -> TimedSeries {
    TimedSeries { labels: values, within: Seq::new(bounds().len(), |i: int| 0nat), total: 0 }
}

/// `series` after one more duration was observed under these label values.
pub open spec fn observed(
    series: Map<u64, TimedSeries>,
    values: Seq<Seq<char>>,
    nanos: u64,
) -> Map<u64, TimedSeries> {
    let key = series_key(values);
    series.insert(
        key,
        observed_by(
            if series.contains_key(key) {
                series[key]
            } else {
                unobserved(values)
            },
            nanos,
        ),
    )
}

/// Calls `HistogramVec::new` with the options that `HistogramOpts::new` makes of `name` and
/// `help`, and so with the default bounds: a vector without series, unless the description is not
/// valid. No label may be called `le`: such a vector could not have a series.
#[verifier::external_body]
fn new_durations(name: &str, help: &str, labels: &Vec<&str>) -> (r: Result<DurationVec, String>)
    requires
        !texts(labels@).contains("le"@),
    ensures
        match r {
            Ok(durations) => {
                &&& duration_description(durations).is_valid()
                &&& duration_description(durations) == Description {
                    name: name@,
                    help: help@,
                    labels: texts(labels@),
                }
                &&& duration_series(durations) == Map::<u64, TimedSeries>::empty()
            },
            Err(_) => !(Description { name: name@, help: help@, labels: texts(labels@) }).is_valid(),
        },
{
    let durations = HistogramVec::new(HistogramOpts::new(name, help), labels);
    durations.map(|inner| DurationVec { inner }).map_err(|e| e.to_string())
}

/// Calls `with_label_values` and then `observe` with the duration in seconds: the series with the
/// key of these values has observed one duration more, and is made for them if there is none. The
/// vector is reached through nothing but this value and a registry, which only reads it. The sum
/// of the durations, a floating-point number, is left unsaid.
#[verifier::external_body]
fn observe(durations: &mut DurationVec, values: &Vec<&str>, nanos: u64)
    requires
        values@.len() == duration_description(*old(durations)).labels.len(),
    ensures
        duration_description(*final(durations)) == duration_description(*old(durations)),
        duration_identity(*final(durations)) == duration_identity(*old(durations)),
        duration_series(*final(durations)) == observed(
            duration_series(*old(durations)),
            texts(values@),
            nanos,
        ),
{
    let elapsed = std::time::Duration::from_nanos(nanos);
    durations.inner.with_label_values(values).observe(elapsed.as_secs_f64());
}

/// A value that goes up and down.
#[verifier::external_body]
pub struct Gauge {
    inner: IntGauge,
}

/// What the gauge was made with.
pub uninterp spec fn gauge_description(gauge: Gauge) -> Description;

/// What the gauge shows.
pub uninterp spec fn gauge_value(gauge: Gauge) -> i64;

/// Which gauge this is: a number that it shares with nothing but what a registry holds of it.
pub uninterp spec fn gauge_identity(gauge: Gauge) -> int;

/// Calls `IntGauge::new`: a gauge without labels that shows zero, unless the description is not
/// valid.
#[verifier::external_body]
fn new_gauge(name: &str, help: &str) -> (r: Result<Gauge, String>)
    ensures
        match r {
            Ok(gauge) => {
                &&& gauge_description(gauge).is_valid()
                &&& gauge_description(gauge) == Description {
                    name: name@,
                    help: help@,
                    labels: Seq::empty(),
                }
                &&& gauge_value(gauge) == 0
            },
            Err(_) => !(Description { name: name@, help: help@, labels: Seq::empty() }).is_valid(),
        },
{
    IntGauge::new(name, help).map(|inner| Gauge { inner }).map_err(|e| e.to_string())
}

/// Calls `IntGauge::inc`. The gauge is reached through nothing but this value and a registry,
/// which only reads it.
#[verifier::external_body]
fn increase(gauge: &mut Gauge)
    ensures
        gauge_description(*final(gauge)) == gauge_description(*old(gauge)),
        gauge_identity(*final(gauge)) == gauge_identity(*old(gauge)),
        gauge_value(*final(gauge)) == next_i64(gauge_value(*old(gauge))),
{
    gauge.inner.inc();
}

/// Calls `IntGauge::dec`. The gauge is reached through nothing but this value and a registry,
/// which only reads it.
#[verifier::external_body]
fn decrease(gauge: &mut Gauge)
    ensures
        gauge_description(*final(gauge)) == gauge_description(*old(gauge)),
        gauge_identity(*final(gauge)) == gauge_identity(*old(gauge)),
        gauge_value(*final(gauge)) == previous_i64(gauge_value(*old(gauge))),
{
    gauge.inner.dec();
}

/// `prometheus::Registry`, a collection of metrics to be exposed together.
#[verifier::external_type_specification]
#[verifier::external_body]
pub struct ExRegistry(Registry);

/// By which number a registry tells the metric `name` without constant labels from others: a hash
/// of the name and a byte that is in no text.
pub open spec fn metric_id(name: Seq<char>) -> u64 {
    fnv::hash(vstd::utf8::encode_utf8(name).push(255))
}

/// Which metric the registry holds under each name.
pub uninterp spec fn registry_metrics(registry: Registry) -> Map<Seq<char>, int>;

/// Whether none of `metrics` has the number of the metric `name`.
pub open spec fn is_id_free(metrics: Map<Seq<char>, int>, name: Seq<char>) -> bool {
    forall|other: Seq<char>| #[trigger]
        metrics.contains_key(other) ==> metric_id(other) != metric_id(name)
}

/// Calls `Registry::new_custom` without a prefix and without labels: an empty registry.
#[verifier::external_body]
fn new_registry() -> (r: Result<Registry, String>)
    ensures
        r is Ok,
        r matches Ok(registry) ==> registry_metrics(registry).dom().is_empty(),
{
    Registry::new_custom(None, None).map_err(|e| e.to_string())
}

/// A metric to register.
pub enum Collected<'a> {
    Counters(&'a CounterVec),
    Durations(&'a DurationVec),
    Gauge(&'a Gauge),
}

impl<'a> Collected<'a> {
    /// What the metric was made with.
    pub open spec fn description(self) -> Description {
        match self {
            Collected::Counters(counters) => counter_description(*counters),
            Collected::Durations(durations) => duration_description(*durations),
            Collected::Gauge(gauge) => gauge_description(*gauge),
        }
    }

    /// Which metric it is.
    pub open spec fn identity(self) -> int {
        match self {
            Collected::Counters(counters) => counter_identity(*counters),
            Collected::Durations(durations) => duration_identity(*durations),
            Collected::Gauge(gauge) => gauge_identity(*gauge),
        }
    }
}

/// Calls `Registry::register`, on a registry that is reached through nothing but this value and
/// that was filled by nothing but this function: a metric of a new name is registered unless its
/// number is taken. From then on the registry shows what this metric shows.
#[verifier::external_body]
fn register(registry: &mut Registry, metric: Collected) -> (r: Result<(), String>)
    requires
        !registry_metrics(*old(registry)).contains_key(metric.description().name),
    ensures
        r is Ok <==> is_id_free(registry_metrics(*old(registry)), metric.description().name),
        r is Ok ==> registry_metrics(*final(registry)) == registry_metrics(*old(registry)).insert(
            metric.description().name,
            metric.identity(),
        ),
        r is Err ==> registry_metrics(*final(registry)) == registry_metrics(*old(registry)),
{
    let collector: Box<dyn prometheus::core::Collector> = match metric {
        Collected::Counters(counters) => Box::new(counters.inner.clone()),
        Collected::Durations(durations) => Box::new(durations.inner.clone()),
        Collected::Gauge(gauge) => Box::new(gauge.inner.clone()),
    };
    registry.register(collector).map_err(|e| e.to_string())
}

/// `prometheus::proto::MetricFamily`, what a registry exposes of one metric.
#[verifier::external_type_specification]
#[verifier::external_body]
pub struct ExMetricFamily(MetricFamily);

/// What sort of metric something is.
pub enum Kind {
    Counter,
    Gauge,
    Histogram,
    Summary,
    Untyped,
}

/// What is exposed of one metric, without the values: its name, what it is about, what sort of
/// metric it is, the names of its labels, and how many series it has.
pub struct Exposed {
    pub name: Seq<char>,
    pub help: Seq<char>,
    pub kind: Kind,
    pub labels: Seq<Seq<char>>,
    pub series: nat,
}

/// What is exposed by those of the families that have a name and a series, in their order.
pub uninterp spec fn exposition(families: Seq<MetricFamily>) -> Seq<Exposed>;

/// The counts of the first counter among `families`, each under the label values of its series.
pub uninterp spec fn exposed_counts(families: Seq<MetricFamily>) -> Map<Seq<Seq<char>>, int>;

/// Of the first histogram among `families`, under the label values of each series: for each bound
/// how many values were within it, and how many there were in all.
pub uninterp spec fn exposed_durations(families: Seq<MetricFamily>) -> Map<
    Seq<Seq<char>>,
    (Seq<nat>, nat),
>;

/// What the first gauge among `families` shows, if it has but one series, without labels and
/// without a time, that shows a whole number of at most 2^53 either way and no negative zero.
pub uninterp spec fn exposed_gauge(families: Seq<MetricFamily>) -> Option<int>;

/// Whether a floating-point number holds `n`, and every whole number closer to zero, exactly.
pub open spec fn is_exact(n: int) -> bool {
    -0x20_0000_0000_0000 <= n <= 0x20_0000_0000_0000
}

/// What `TextEncoder::encode` writes of `families`, or the text of its error.
pub uninterp spec fn text_format(families: Seq<MetricFamily>) -> Result<Seq<u8>, Seq<char>>;

/// Bytes or the text of an error, as mathematical values.
pub open spec fn bytes_result(r: Result<Vec<u8>, String>) -> Result<Seq<u8>, Seq<char>> {
    match r {
        Ok(bytes) => Ok(bytes@),
        Err(e) => Err(e@),
    }
}

/// The text format of a gauge without labels.
pub open spec fn gauge_text(name: Seq<char>, help: Seq<char>, value: int) -> Seq<char> {
    "# HELP "@ + name + " "@ + help + "\n# TYPE "@ + name + " gauge\n"@ + name + " "@
        + text::signed_decimal(value) + "\n"@
}

/// Whether there is a text, and nothing in it that has to be escaped in the text format.
pub open spec fn is_plain(help: Seq<char>) -> bool {
    help.len() > 0 && !help.contains('\\') && !help.contains('\n')
}

/// The text format of what is exposed, if that is one gauge that shows `value`, with nothing to
/// escape in what it is about.
pub open spec fn lone_gauge_text(exposed: Seq<Exposed>, value: Option<int>) -> Option<Seq<char>> {
    if exposed.len() == 1 && exposed[0].kind is Gauge && is_plain(exposed[0].help)
        && value is Some {
        Some(gauge_text(exposed[0].name, exposed[0].help, value->0))
    } else {
        None
    }
}

/// Calls `TextEncoder::encode` with an empty buffer, and hands out what it then holds: text, for
/// families that all have a name, a series and a type, as nothing can go wrong in writing them to
/// a buffer. What it writes of a gauge alone is said in full.
#[verifier::external_body]
fn encode(families: &Vec<MetricFamily>) -> (r: Result<Vec<u8>, String>)
    requires
        exposition(families@).len() == families@.len(),
        forall|i: int|
            0 <= i < families@.len() ==> !((#[trigger] exposition(families@)[i]).kind is Untyped),
    ensures
        bytes_result(r) == text_format(families@),
        r is Ok,
        r matches Ok(bytes) ==> vstd::utf8::valid_utf8(bytes@),
        r matches Ok(bytes) ==> (lone_gauge_text(
            exposition(families@),
            exposed_gauge(families@),
        ) matches Some(text) ==> bytes@ == vstd::utf8::encode_utf8(text)),
{
    let mut buf = Vec::new();
    let written = TextEncoder::new().encode(families, &mut buf);
    written.map(|_| buf).map_err(|e| e.to_string())
}

/// The metrics of the service.
pub struct Metrics {
    registry: Registry,
    requests_total: CounterVec,
    request_duration_seconds: DurationVec,
    in_flight_requests: Gauge,
}

/// The labels that tell requests apart.
pub open spec fn request_labels() -> Seq<Seq<char>> {
    seq!["method"@, "path"@, "status"@]
}

/// What the counters of requests are made with.
pub open spec fn requests_description() -> Description {
    Description {
        name: "http_requests_total"@,
        help: "Total HTTP requests"@,
        labels: request_labels(),
    }
}

/// What the histograms of durations are made with.
pub open spec fn durations_description() -> Description {
    Description {
        name: "http_request_duration_seconds"@,
        help: "HTTP request duration in seconds"@,
        labels: request_labels(),
    }
}

/// What the gauge of requests under way is made with.
pub open spec fn in_flight_description() -> Description {
    Description {
        name: "http_requests_in_flight"@,
        help: "In-flight HTTP requests"@,
        labels: Seq::empty(),
    }
}

/// What is exposed, without the values, of a metric of this sort with so many series.
pub open spec fn exposed(description: Description, kind: Kind, series: nat) -> Exposed {
    Exposed {
        name: description.name,
        help: description.help,
        kind,
        labels: description.labels,
        series,
    }
}

/// Whether `shown` has a count for each of the series, under its label values, and each that a
/// floating-point number holds exactly as it is.
pub open spec fn shows_counts(
    shown: Map<Seq<Seq<char>>, int>,
    series: Map<u64, CountedSeries>,
) -> bool {
    &&& forall|labels: Seq<Seq<char>>| #[trigger]
        shown.contains_key(labels) <==> series.contains_key(series_key(labels))
            && series[series_key(labels)].labels == labels
    &&& forall|labels: Seq<Seq<char>>|
        shown.contains_key(labels) && is_exact(series[series_key(labels)].count as int)
            ==> #[trigger] shown[labels] == series[series_key(labels)].count
}

/// Whether `shown` has what each of the series has observed, under its label values, as long as
/// that is fewer than 2^63 durations.
pub open spec fn shows_durations(
    shown: Map<Seq<Seq<char>>, (Seq<nat>, nat)>,
    series: Map<u64, TimedSeries>,
) -> bool {
    &&& forall|labels: Seq<Seq<char>>| #[trigger]
        shown.contains_key(labels) <==> series.contains_key(series_key(labels))
            && series[series_key(labels)].labels == labels
    &&& forall|labels: Seq<Seq<char>>|
        shown.contains_key(labels) && series[series_key(labels)].total < 0x8000_0000_0000_0000
            ==> #[trigger] shown[labels] == (
            series[series_key(labels)].within,
            series[series_key(labels)].total,
        )
}

/// The families that a registry hands out that holds these three metrics.
pub uninterp spec fn gathered(
    counters: CounterVec,
    durations: DurationVec,
    gauge: Gauge,
) -> Seq<MetricFamily>;

impl Metrics {
    /// What the three metrics are made with.
    pub closed spec fn descriptions(&self) -> Seq<Description> {
        seq![
            counter_description(self.requests_total),
            duration_description(self.request_duration_seconds),
            gauge_description(self.in_flight_requests),
        ]
    }

    /// Which metric is updated under each name.
    pub closed spec fn updated(&self) -> Map<Seq<char>, int> {
        map![
            "http_requests_total"@ => counter_identity(self.requests_total),
            "http_request_duration_seconds"@ => duration_identity(self.request_duration_seconds),
            "http_requests_in_flight"@ => gauge_identity(self.in_flight_requests),
        ]
    }

    /// Which metric the registry holds under each name.
    pub closed spec fn registered(&self) -> Map<Seq<char>, int> {
        registry_metrics(self.registry)
    }

    /// Whether requests are told apart by method, path and status, and the registry holds exactly
    /// the three metrics that are updated, each under its name.
    pub open spec fn wf(&self) -> bool {
        &&& self.descriptions() == seq![
            requests_description(),
            durations_description(),
            in_flight_description(),
        ]
        &&& self.registered() == self.updated()
    }

    /// How many requests there were of each kind.
    pub closed spec fn requests(&self) -> Map<u64, CountedSeries> {
        counter_series(self.requests_total)
    }

    /// How long the requests of each kind took.
    pub closed spec fn durations(&self) -> Map<u64, TimedSeries> {
        duration_series(self.request_duration_seconds)
    }

    /// How many requests are under way.
    pub closed spec fn in_flight(&self) -> i64 {
        gauge_value(self.in_flight_requests)
    }

    /// The families that the registry hands out.
    pub closed spec fn families(&self) -> Seq<MetricFamily> {
        gathered(self.requests_total, self.request_duration_seconds, self.in_flight_requests)
    }

    /// The metrics that have anything to show, in the alphabetical order of their names.
    pub open spec fn shown(&self) -> Seq<Exposed> {
        let durations = if self.durations().is_empty() {
            Seq::empty()
        } else {
            seq![exposed(durations_description(), Kind::Histogram, self.durations().len())]
        };
        let requests = if self.requests().is_empty() {
            Seq::empty()
        } else {
            seq![exposed(requests_description(), Kind::Counter, self.requests().len())]
        };
        durations + seq![exposed(in_flight_description(), Kind::Gauge, 1)] + requests
    }

    /// Whether `families` show the metrics as they are: those that have anything to show, with
    /// the counts, the durations and the number of requests under way.
    pub open spec fn is_shown_by(&self, families: Seq<MetricFamily>) -> bool {
        &&& exposition(families) == self.shown()
        &&& shows_counts(exposed_counts(families), self.requests())
        &&& shows_durations(exposed_durations(families), self.durations())
        &&& is_exact(self.in_flight() as int) ==> exposed_gauge(families) == Some(
            self.in_flight() as int,
        )
    }

    /// Whether no request has been answered yet.
    pub open spec fn is_quiet(&self) -> bool {
        self.requests().is_empty() && self.durations().is_empty()
    }
}

/// Calls `Registry::gather` on the registry, in which clones of the three metrics are and nothing
/// else: it hands out what those of them show that have a series, sorted by their names, and the
/// series of each by their label values. Two calls hand out the same, unless a metric was updated
/// between them. The sums of the durations, floating-point numbers, are left unsaid, and so is how
/// a count is rounded that a floating-point number does not hold.
#[verifier::external_body]
fn gather(metrics: &Metrics) -> (families: Vec<MetricFamily>)
    requires
        metrics.wf(),
    ensures
        families@ == gathered(
            metrics.requests_total,
            metrics.request_duration_seconds,
            metrics.in_flight_requests,
        ),
        exposition(families@) == metrics.shown(),
        shows_counts(exposed_counts(families@), metrics.requests()),
        shows_durations(exposed_durations(families@), metrics.durations()),
        is_exact(metrics.in_flight() as int) ==> exposed_gauge(families@) == Some(
            metrics.in_flight() as int,
        ),
        families@.len() == metrics.shown().len(),
{
    metrics.registry.gather()
}

proof fn descriptions_are_valid()
    ensures
        requests_description().is_valid(),
        durations_description().is_valid(),
        in_flight_description().is_valid(),
        is_plain(in_flight_description().help),
        !request_labels().contains("le"@),
        requests_description().name != durations_description().name,
        requests_description().name != in_flight_description().name,
        durations_description().name != in_flight_description().name,
{
    reveal_strlit("http_requests_total");
    reveal_strlit("Total HTTP requests");
    reveal_strlit("http_request_duration_seconds");
    reveal_strlit("HTTP request duration in seconds");
    reveal_strlit("http_requests_in_flight");
    reveal_strlit("In-flight HTTP requests");
    reveal_strlit("method");
    reveal_strlit("path");
    reveal_strlit("status");
    reveal_strlit("le");
    assert("method"@.len() == 6 && "path"@.len() == 4 && "status"@.len() == 6 && "le"@.len() == 2);
    assert("method"@[0] == 'm' && "status"@[0] == 's');
}

/// The metrics of a service that has had no requests.
pub fn init_metrics() -> (metrics: Metrics)
    ensures
        metrics.wf(),
        metrics.requests() == Map::<u64, CountedSeries>::empty(),
        metrics.durations() == Map::<u64, TimedSeries>::empty(),
        metrics.in_flight() == 0,
{
    proof {
        descriptions_are_valid();
        fnv::hash_of_requests_total();
        fnv::hash_of_request_duration_seconds();
        fnv::hash_of_requests_in_flight();
    }
    let labels: Vec<&'static str> = vec!["method", "path", "status"];
    assert(texts(labels@) =~= request_labels());
    let mut registry = new_registry().expect("failed to create metrics registry");
    let requests_total = new_counters("http_requests_total", "Total HTTP requests", &labels).expect(
        "failed to create requests counter",
    );
    let request_duration_seconds = new_durations(
        "http_request_duration_seconds",
        "HTTP request duration in seconds",
        &labels,
    ).expect("failed to create duration histogram");
    let in_flight_requests = new_gauge("http_requests_in_flight", "In-flight HTTP requests").expect(
        "gauge init",
    );
    register(&mut registry, Collected::Counters(&requests_total)).expect("register requests_total");
    register(&mut registry, Collected::Durations(&request_duration_seconds)).expect(
        "register request_duration_seconds",
    );
    register(&mut registry, Collected::Gauge(&in_flight_requests)).expect(
        "register in_flight_requests",
    );
    let metrics = Metrics {
        registry,
        requests_total,
        request_duration_seconds,
        in_flight_requests,
    };
    assert(metrics.registered() =~= metrics.updated());
    metrics
}

/// Notes that a request has come in.
pub fn request_started(metrics: &mut Metrics)
    requires
        old(metrics).wf(),
    ensures
        final(metrics).wf(),
        final(metrics).requests() == old(metrics).requests(),
        final(metrics).durations() == old(metrics).durations(),
        final(metrics).in_flight() == next_i64(old(metrics).in_flight()),
{
    increase(&mut metrics.in_flight_requests);
}

/// The label values of the requests with this method, path and status.
pub open spec fn request_values(method: Seq<char>, path: Seq<char>, status: u16) -> Seq<Seq<char>> {
    seq![method, path, text::decimal(status as nat)]
}

/// Notes that a request has been answered with `status` after so many nanoseconds.
pub fn request_finished(
    metrics: &mut Metrics,
    method: &str,
    path: &str,
    status: u16,
    elapsed_nanos: u64,
)
    requires
        old(metrics).wf(),
    ensures
        final(metrics).wf(),
        final(metrics).requests() == counted(
            old(metrics).requests(),
            request_values(method@, path@, status),
        ),
        final(metrics).durations() == observed(
            old(metrics).durations(),
            request_values(method@, path@, status),
            elapsed_nanos,
        ),
        final(metrics).in_flight() == previous_i64(old(metrics).in_flight()),
        exists|values: Seq<Seq<char>>|
            {
                &&& values.len() == 3
                &&& values[0] == method@
                &&& values[1] == path@
                &&& text::is_digits(values[2])
                &&& text::digits_value(values[2]) == status
                &&& final(metrics).requests() == #[trigger] counted(old(metrics).requests(), values)
                &&& final(metrics).durations() == observed(
                    old(metrics).durations(),
                    values,
                    elapsed_nanos,
                )
            },
{
    let status_text: String = text::u16_text(status);
    proof {
        text::decimal_writes_the_number(status as nat);
    }
    let values: Vec<&str> = vec![method, path, status_text.as_str()];
    assert(texts(values@) =~= request_values(method@, path@, status));
    count(&mut metrics.requests_total, &values);
    observe(&mut metrics.request_duration_seconds, &values, elapsed_nanos);
    decrease(&mut metrics.in_flight_requests);
    assert(metrics.requests() == counted(
        old(metrics).requests(),
        request_values(method@, path@, status),
    ));
}

/// The text that encoding gave: what the bytes stand for, or what went wrong.
pub open spec fn rendering(encoded: Result<Seq<u8>, Seq<char>>) -> Result<Seq<char>, Seq<char>> {
    match encoded {
        Err(e) => Err("encode failed: "@ + e),
        Ok(bytes) => if vstd::utf8::valid_utf8(bytes) {
            Ok(vstd::utf8::decode_utf8(bytes))
        } else {
            Err("utf8 conversion failed: "@ + text::utf8_error(bytes))
        },
    }
}

/// Makes a text of what encoding gave.
pub fn rendering_of(encoded: Result<Vec<u8>, String>) -> (r: Result<String, String>)
    ensures
        text::text_result(r) == rendering(bytes_result(encoded)),
{
    match encoded {
        Err(e) => {
            let message: String = "encode failed: ".to_owned();
            Err(message.concat(e.as_str()))
        },
        Ok(bytes) => match text::string_from_utf8(bytes) {
            Ok(s) => Ok(s),
            Err(e) => {
                let message: String = "utf8 conversion failed: ".to_owned();
                Err(message.concat(e.as_str()))
            },
        },
    }
}

/// The text that shows `n` requests under way and nothing else.
pub open spec fn quiet_page(n: int) -> Seq<char> {
    gauge_text(in_flight_description().name, in_flight_description().help, n)
}

/// The metrics as text.
pub fn render_metrics(metrics: &Metrics) -> (r: Result<String, String>)
    requires
        metrics.wf(),
    ensures
        text::text_result(r) == rendering(text_format(metrics.families())),
        metrics.is_shown_by(metrics.families()),
        r is Ok,
        metrics.is_quiet() && is_exact(metrics.in_flight() as int) ==> text::text_result(r) == Ok::<
            Seq<char>,
            Seq<char>,
        >(quiet_page(metrics.in_flight() as int)),
{
    let families = gather(metrics);
    proof {
        descriptions_are_valid();
        vstd::utf8::encode_utf8_decode_utf8(quiet_page(metrics.in_flight() as int));
    }
    rendering_of(encode(&families))
}

/// The content type of metrics as text.
pub const TEXT_CONTENT_TYPE: &'static str = "text/plain; version=0.0.4";

/// The body of an answer that shows the metrics.
#[derive(Debug)]
pub struct MetricsPage {
    pub content_type: &'static str,
    pub payload: String,
}

/// A [`MetricsPage`] as a mathematical value.
pub struct MetricsPageView {
    pub content_type: Seq<char>,
    pub payload: Seq<char>,
}

impl View for MetricsPage {
    type V = MetricsPageView;

    open spec fn view(&self) -> MetricsPageView {
        MetricsPageView { content_type: self.content_type@, payload: self.payload@ }
    }
}

/// The answer to what rendering the metrics gave: the page, or a refusal.
pub open spec fn page_answer(rendered: Result<Seq<char>, Seq<char>>) -> Result<
    (u16, MetricsPageView),
    (u16, reply::ErrorResponseView),
> {
    match rendered {
        Ok(payload) => Ok(
            (
                reply::OK,
                MetricsPageView { content_type: "text/plain; version=0.0.4"@, payload },
            ),
        ),
        Err(_) => Err(
            reply::refusal(
                reply::INTERNAL_SERVER_ERROR,
                "server_error"@,
                "failed to render metrics"@,
            ),
        ),
    }
}

/// Makes the answer to what rendering the metrics gave.
pub fn answer_rendering(rendered: Result<String, String>) -> (r: Result<
    (u16, MetricsPage),
    (u16, ErrorResponse),
>)
    ensures
        reply::answer(r) == page_answer(text::text_result(rendered)),
{
    match rendered {
        Ok(payload) => Ok(
            (reply::OK, MetricsPage { content_type: TEXT_CONTENT_TYPE, payload }),
        ),
        Err(_) => Err(
            reply::error_response(
                reply::INTERNAL_SERVER_ERROR,
                "server_error",
                "failed to render metrics".to_owned(),
            ),
        ),
    }
}

/// Shows the metrics.
pub fn metrics_endpoint(metrics: &Metrics) -> (r: Result<(u16, MetricsPage), (u16, ErrorResponse)>)
    requires
        metrics.wf(),
    ensures
        reply::answer(r) == page_answer(rendering(text_format(metrics.families()))),
        metrics.is_shown_by(metrics.families()),
        r is Ok,
        metrics.is_quiet() && is_exact(metrics.in_flight() as int) ==> reply::answer(r)
            == page_answer(Ok(quiet_page(metrics.in_flight() as int))),
{
    answer_rendering(render_metrics(metrics))
}

} // verus!
