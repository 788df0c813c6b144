//! Segment load read from a Prometheus scrape.
//!
//! Four gauges describe a segment: `xr_flops_current`, `xr_power_kw`,
//! `xr_thermal_margin_pct` and `xr_renewable_share_pct`. A gauge that the
//! scrape lacks takes a default that errs on the side of caution for energy:
//! no renewable share, and a full thermal margin.
use crate::amount::Amount;
use crate::binary64::clamped_amount;
use crate::energy::TelemetryUnavailable;
use crate::types::{SegmentId, SegmentLoad};
use vstd::prelude::*;

verus! {

/// `prometheus_parse::Scrape`, the parsed form of an exposition text. What it
/// holds is read through [`samples_of`].
#[verifier::external_type_specification]
#[verifier::external_body]
pub struct ExScrape(prometheus_parse::Scrape);

/// The value of one sample. A scalar carries the 64 bits of its binary64
/// number; the buckets of a histogram and the quantiles of a summary are left
/// behind.
#[derive(Clone, Copy, Debug, PartialEq, Eq, Structural)]
pub enum MetricValue {
    Counter(u64),
    Gauge(u64),
    Histogram,
    Summary,
    Untyped(u64),
}

impl MetricValue {
    /// The bits of a scalar; `None` for a histogram or a summary.
    pub open spec fn scalar(self) -> Option<u64> {
        match self {
            MetricValue::Counter(bits) => Some(bits),
            MetricValue::Gauge(bits) => Some(bits),
            MetricValue::Untyped(bits) => Some(bits),
            _ => None,
        }
    }

    /// Computes [`MetricValue::scalar`].
    pub fn scalar_bits(&self) -> (r: Option<u64>)
        ensures
            r == self.scalar(),
    {
        match self {
            MetricValue::Counter(bits) => Some(*bits),
            MetricValue::Gauge(bits) => Some(*bits),
            MetricValue::Untyped(bits) => Some(*bits),
            _ => None,
        }
    }
}

/// One sample of a scrape: the metric's name and its value.
#[derive(Clone, Debug, PartialEq, Eq)]
pub struct MetricSample {
    pub metric: String,
    pub value: MetricValue,
}

impl DeepView for MetricSample {
    type V = (Seq<char>, MetricValue);

    open spec fn deep_view(&self) -> (Seq<char>, MetricValue) {
        (self.metric@, self.value)
    }
}

/// The samples that a scrape holds, in its order, each as name and value.
pub uninterp spec fn scrape_samples(scrape: prometheus_parse::Scrape) -> Seq<
    (Seq<char>, MetricValue),
>;

/// The scalar samples among `samples`, in their order: the counters, the
/// gauges and the untyped ones.
pub open spec fn scalars_of(samples: Seq<(Seq<char>, MetricValue)>) -> Seq<
    (Seq<char>, MetricValue),
>
    decreases samples.len(),
{
    if samples.len() == 0 {
        Seq::empty()
    } else if samples[0].1.scalar() is Some {
        seq![samples[0]] + scalars_of(samples.drop_first())
    } else {
        scalars_of(samples.drop_first())
    }
}

/// The scalar samples that the parser reads from an exposition text, in the
/// order of the text's lines, each as name and value.
pub uninterp spec fn text_scalars(text: Seq<char>) -> Seq<(Seq<char>, MetricValue)>;

/// Calls `prometheus_parse::Scrape::parse` on the lines of `text`.
///
/// The parser fails only where reading a line fails, and every line handed to
/// it here is read already: the call succeeds on every text. It lists the
/// scalar samples in the order of their lines, so these are a function of the
/// text; they are named [`text_scalars`]. Histograms and summaries follow in
/// no fixed order, and every sample is stamped with the time of the call:
/// nothing is claimed of either.
#[verifier::external_body]
fn parse_scrape(text: &str) -> (r: Result<prometheus_parse::Scrape, TelemetryUnavailable>)
    ensures
        r is Ok,
        r matches Ok(scrape) ==> scalars_of(scrape_samples(scrape)) == text_scalars(text@),
{
    let lines = text.lines().map(|line| Ok(line.to_string()));
    match prometheus_parse::Scrape::parse(lines) {
        Ok(scrape) => Ok(scrape),
        Err(_) => Err(TelemetryUnavailable),
    }
}

/// Reads the length of the public field `samples` of
/// `prometheus_parse::Scrape`: the number of samples held.
#[verifier::external_body]
fn sample_count(scrape: &prometheus_parse::Scrape) -> (n: usize)
    ensures
        n == scrape_samples(*scrape).len(),
{
    scrape.samples.len()
}

/// Reads one element of the public field `samples` of
/// `prometheus_parse::Scrape`: the sample at position `i`, its name copied and
/// its `prometheus_parse::Value` told apart by variant.
#[verifier::external_body]
fn sample_at(scrape: &prometheus_parse::Scrape, i: usize) -> (sample: MetricSample)
    requires
        i < scrape_samples(*scrape).len(),
    ensures
        sample.deep_view() == scrape_samples(*scrape)[i as int],
{
    let sample = &scrape.samples[i];
    let value = match sample.value {
        prometheus_parse::Value::Counter(v) => MetricValue::Counter(v.to_bits()),
        prometheus_parse::Value::Gauge(v) => MetricValue::Gauge(v.to_bits()),
        prometheus_parse::Value::Histogram(_) => MetricValue::Histogram,
        prometheus_parse::Value::Summary(_) => MetricValue::Summary,
        prometheus_parse::Value::Untyped(v) => MetricValue::Untyped(v.to_bits()),
    };
    MetricSample { metric: sample.metric.clone(), value }
}

/// The bits of the first sample named `metric` that is a scalar.
pub open spec fn first_scalar(samples: Seq<(Seq<char>, MetricValue)>, metric: Seq<char>) -> Option<
    u64,
>
    decreases samples.len(),
{
    if samples.len() == 0 {
        None
    } else if samples[0].0 == metric && samples[0].1.scalar() is Some {
        samples[0].1.scalar()
    } else {
        first_scalar(samples.drop_first(), metric)
    }
}

/// Copies the samples out of a scrape, in its order.
pub fn samples_of(scrape: &prometheus_parse::Scrape) -> (samples: Vec<MetricSample>)
    ensures
        samples.deep_view() == scrape_samples(*scrape),
{
    let count = sample_count(scrape);
    let mut samples: Vec<MetricSample> = Vec::new();
    let mut i: usize = 0;
    while i < count
        invariant
            i <= count,
            count == scrape_samples(*scrape).len(),
            samples@.len() == i,
            forall|j: int| 0 <= j < i ==> samples@[j].deep_view() == scrape_samples(*scrape)[j],
        decreases count - i,
    {
        samples.push(sample_at(scrape, i));
        i += 1;
    }
    assert(samples.deep_view() =~= scrape_samples(*scrape));
    samples
}

/// The value of a metric among samples: the bits of the first sample of that
/// name that is a counter, a gauge or untyped.
pub fn first_value(samples: &Vec<MetricSample>, metric: &str) -> (r: Option<u64>)
    ensures
        r == first_scalar(samples.deep_view(), metric@),
{
    let wanted = metric.to_string();
    let ghost all = samples.deep_view();
    let mut i: usize = 0;
    assert(all.skip(0) == all);
    while i < samples.len()
        invariant
            i <= samples.len(),
            all == samples.deep_view(),
            wanted@ == metric@,
            first_scalar(all, metric@) == first_scalar(all.skip(i as int), metric@),
        decreases samples.len() - i,
    {
        proof {
            assert(all.skip(i as int)[0] == all[i as int]);
            assert(all.skip(i as int).drop_first() == all.skip(i + 1));
        }
        if samples[i].metric == wanted {
            match samples[i].value.scalar_bits() {
                Some(bits) => {
                    return Some(bits);
                },
                None => {},
            }
        }
        i += 1;
    }
    assert(all.skip(i as int).len() == 0);
    None
}

/// The value of a metric in a scrape, see [`first_value`].
pub fn metric_value(scrape: &prometheus_parse::Scrape, metric: &str) -> (r: Option<u64>)
    ensures
        r == first_scalar(scrape_samples(*scrape), metric@),
{
    let samples = samples_of(scrape);
    first_value(&samples, metric)
}

/// A gauge read as an amount: the reading clamped into what an amount holds,
/// or `default` where the samples have no such gauge.
pub open spec fn gauge_or(reading: Option<u64>, default: Amount) -> Amount {
    match reading {
        Some(bits) => clamped_amount(bits),
        None => default,
    }
}

/// The load that samples describe for a segment.
pub open spec fn load_of_samples(
    segment_id: SegmentId,
    samples: Seq<(Seq<char>, MetricValue)>,
) -> SegmentLoad {
    SegmentLoad {
        segment_id,
        current_flops: gauge_or(first_scalar(samples, "xr_flops_current"@), Amount { micros: 0 }),
        energy_rate_kw: gauge_or(first_scalar(samples, "xr_power_kw"@), Amount { micros: 0 }),
        thermal_margin_pct: gauge_or(
            first_scalar(samples, "xr_thermal_margin_pct"@),
            Amount { micros: 100_000_000 },
        ),
        renewable_share_pct: gauge_or(
            first_scalar(samples, "xr_renewable_share_pct"@),
            Amount { micros: 0 },
        ),
    }
}

fn read_gauge(samples: &Vec<MetricSample>, metric: &str, default: Amount) -> (r: Amount)
    ensures
        r == gauge_or(first_scalar(samples.deep_view(), metric@), default),
{
    match first_value(samples, metric) {
        Some(bits) => Amount::clamped_from_binary64_bits(bits),
        None => default,
    }
}

/// Reads a segment's load from samples.
pub fn segment_load_from_samples(segment_id: &SegmentId, samples: &Vec<MetricSample>) -> (load:
    SegmentLoad)
    ensures
        load == load_of_samples(*segment_id, samples.deep_view()),
{
    SegmentLoad {
        segment_id: segment_id.clone(),
        current_flops: read_gauge(samples, "xr_flops_current", Amount::zero()),
        energy_rate_kw: read_gauge(samples, "xr_power_kw", Amount::zero()),
        thermal_margin_pct: read_gauge(samples, "xr_thermal_margin_pct", Amount::from_units(100)),
        renewable_share_pct: read_gauge(samples, "xr_renewable_share_pct", Amount::zero()),
    }
}

/// Samples that are no scalars do not count for the value of a metric: it is
/// the same among all samples as among the scalar ones.
pub proof fn lemma_first_scalar_among_scalars(
    samples: Seq<(Seq<char>, MetricValue)>,
    metric: Seq<char>,
)
    ensures
        first_scalar(scalars_of(samples), metric) == first_scalar(samples, metric),
    decreases samples.len(),
{
    if samples.len() > 0 {
        let rest = samples.drop_first();
        lemma_first_scalar_among_scalars(rest, metric);
        if samples[0].1.scalar() is Some {
            let kept = seq![samples[0]] + scalars_of(rest);
            assert(kept[0] == samples[0]);
            assert(kept.drop_first() == scalars_of(rest));
        }
    }
}

/// The load of a segment depends on the scalar samples alone.
pub proof fn lemma_load_of_scalars(segment_id: SegmentId, samples: Seq<(Seq<char>, MetricValue)>)
    ensures
        load_of_samples(segment_id, scalars_of(samples)) == load_of_samples(segment_id, samples),
{
    lemma_first_scalar_among_scalars(samples, "xr_flops_current"@);
    lemma_first_scalar_among_scalars(samples, "xr_power_kw"@);
    lemma_first_scalar_among_scalars(samples, "xr_thermal_margin_pct"@);
    lemma_first_scalar_among_scalars(samples, "xr_renewable_share_pct"@);
}

/// Reads a segment's load from the text of a scrape: parses the text and hands
/// its samples to [`segment_load_from_samples`].
///
/// Every text has a load: lines that the parser does not understand are
/// passed over, and a gauge that is missing takes its default. The load is
/// the one that the scalar samples of the text describe for the segment.
pub fn segment_load_from_text(segment_id: &SegmentId, text: &str) -> (r: Result<
    SegmentLoad,
    TelemetryUnavailable,
>)
    ensures
        r == Ok::<SegmentLoad, TelemetryUnavailable>(
            load_of_samples(*segment_id, text_scalars(text@)),
        ),
{
    match parse_scrape(text) {
        Ok(scrape) => {
            let samples = samples_of(&scrape);
            proof {
                lemma_load_of_scalars(*segment_id, scrape_samples(scrape));
            }
            Ok(segment_load_from_samples(segment_id, &samples))
        },
        Err(e) => Err(e),
    }
}

} // verus!
