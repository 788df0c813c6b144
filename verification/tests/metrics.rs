use eco_orchestrator::amount::Amount;
use eco_orchestrator::metrics_client::{
    first_value, metric_value, samples_of, segment_load_from_samples, segment_load_from_text,
    MetricSample, MetricValue,
};
use eco_orchestrator::types::{SegmentId, SegmentLoad};

fn parse(text: &str) -> prometheus_parse::Scrape {
    prometheus_parse::Scrape::parse(text.lines().map(|l| Ok(l.to_string()))).unwrap()
}

fn sample(metric: &str, value: MetricValue) -> MetricSample {
    MetricSample { metric: metric.to_string(), value }
}

fn segment() -> SegmentId {
    SegmentId("segment_climate_hpc".to_string())
}

const TEXT: &str = "\
# HELP xr_flops_current Floating point operations per second.
# TYPE xr_flops_current gauge
xr_flops_current 1.5e12
# TYPE xr_power_kw gauge
xr_power_kw{rack=\"a\"} 250
xr_power_kw{rack=\"b\"} 125
# TYPE xr_thermal_margin_pct gauge
xr_thermal_margin_pct 35.5
xr_renewable_share_pct 62
# TYPE jobs_total counter
jobs_total 17
";

#[test]
fn load_is_read_from_an_exposition_text() {
    assert_eq!(
        segment_load_from_text(&segment(), TEXT),
        Ok(SegmentLoad {
            segment_id: segment(),
            current_flops: Amount::from_units(1_500_000_000_000),
            energy_rate_kw: Amount::from_units(250),
            thermal_margin_pct: Amount { micros: 35_500_000 },
            renewable_share_pct: Amount::from_units(62),
        })
    );
}

#[test]
fn missing_gauges_take_their_defaults() {
    assert_eq!(
        segment_load_from_text(&segment(), "unrelated 1\n"),
        Ok(SegmentLoad {
            segment_id: segment(),
            current_flops: Amount::zero(),
            energy_rate_kw: Amount::zero(),
            thermal_margin_pct: Amount::from_units(100),
            renewable_share_pct: Amount::zero(),
        })
    );
    assert_eq!(
        segment_load_from_text(&segment(), ""),
        Ok(SegmentLoad {
            segment_id: segment(),
            current_flops: Amount::zero(),
            energy_rate_kw: Amount::zero(),
            thermal_margin_pct: Amount::from_units(100),
            renewable_share_pct: Amount::zero(),
        })
    );
}

#[test]
fn samples_come_out_in_order_with_their_kinds() {
    let samples = samples_of(&parse(TEXT));
    assert_eq!(
        samples,
        vec![
            sample("xr_flops_current", MetricValue::Gauge(1.5e12f64.to_bits())),
            sample("xr_power_kw", MetricValue::Gauge(250.0f64.to_bits())),
            sample("xr_power_kw", MetricValue::Gauge(125.0f64.to_bits())),
            sample("xr_thermal_margin_pct", MetricValue::Gauge(35.5f64.to_bits())),
            sample("xr_renewable_share_pct", MetricValue::Untyped(62.0f64.to_bits())),
            sample("jobs_total", MetricValue::Counter(17.0f64.to_bits())),
        ]
    );
}

#[test]
fn metric_value_is_the_first_scalar_of_that_name() {
    let scrape = parse(TEXT);
    assert_eq!(metric_value(&scrape, "xr_power_kw"), Some(250.0f64.to_bits()));
    assert_eq!(metric_value(&scrape, "jobs_total"), Some(17.0f64.to_bits()));
    assert_eq!(metric_value(&scrape, "xr_power"), None);
    assert_eq!(metric_value(&scrape, "absent"), None);
}

#[test]
fn histograms_and_summaries_are_passed_over() {
    let text = "\
# TYPE latency histogram
latency_bucket{le=\"0.5\"} 3
latency_bucket{le=\"+Inf\"} 4
latency 9
";
    let scrape = parse(text);
    let samples = samples_of(&scrape);
    assert!(samples.iter().any(|s| s.value == MetricValue::Histogram));
    assert_eq!(metric_value(&scrape, "latency"), Some(9.0f64.to_bits()));

    let listed = vec![
        sample("m", MetricValue::Histogram),
        sample("m", MetricValue::Summary),
        sample("n", MetricValue::Gauge(1)),
        sample("m", MetricValue::Untyped(7)),
        sample("m", MetricValue::Counter(8)),
    ];
    assert_eq!(first_value(&listed, "m"), Some(7));
    assert_eq!(first_value(&listed, "n"), Some(1));
    assert_eq!(first_value(&listed[..2].to_vec(), "m"), None);
    assert_eq!(first_value(&vec![], "m"), None);
    assert_eq!(MetricValue::Histogram.scalar_bits(), None);
    assert_eq!(MetricValue::Summary.scalar_bits(), None);
    assert_eq!(MetricValue::Counter(3).scalar_bits(), Some(3));
    assert_eq!(MetricValue::Gauge(4).scalar_bits(), Some(4));
    assert_eq!(MetricValue::Untyped(5).scalar_bits(), Some(5));
}

#[test]
fn readings_out_of_range_are_clamped() {
    let samples = vec![
        sample("xr_flops_current", MetricValue::Gauge((-4.0f64).to_bits())),
        sample("xr_power_kw", MetricValue::Gauge(f64::INFINITY.to_bits())),
        sample("xr_thermal_margin_pct", MetricValue::Gauge(f64::NAN.to_bits())),
        sample("xr_renewable_share_pct", MetricValue::Gauge((-1.0f64).to_bits())),
    ];
    assert_eq!(
        segment_load_from_samples(&segment(), &samples),
        SegmentLoad {
            segment_id: segment(),
            current_flops: Amount::zero(),
            energy_rate_kw: Amount { micros: u128::MAX },
            thermal_margin_pct: Amount { micros: u128::MAX },
            renewable_share_pct: Amount::zero(),
        }
    );
    let text = "xr_thermal_margin_pct NaN\nxr_renewable_share_pct -Inf\n";
    let load = segment_load_from_text(&segment(), text).unwrap();
    assert_eq!(load.thermal_margin_pct, Amount { micros: u128::MAX });
    assert_eq!(load.renewable_share_pct, Amount::zero());
    assert!(!load.is_in_range());
}

#[test]
fn every_text_has_a_load() {
    let defaults = SegmentLoad {
        segment_id: segment(),
        current_flops: Amount::zero(),
        energy_rate_kw: Amount::zero(),
        thermal_margin_pct: Amount::from_units(100),
        renewable_share_pct: Amount::zero(),
    };
    for text in [
        "this is no exposition text at all",
        "xr_thermal_margin_pct",
        "xr_thermal_margin_pct not-a-number",
        "xr_thermal_margin_pct=12",
        "{}{}{}\n\n\n# TYPE\n# HELP\n",
        "\u{0}\u{1}\u{7f}\r\n\t",
        "# TYPE xr_thermal_margin_pct histogram\nxr_thermal_margin_pct_bucket{le=\"1\"} 2\n",
    ] {
        assert_eq!(segment_load_from_text(&segment(), text), Ok(defaults.clone()));
    }
}

#[test]
fn load_reads_the_scalars_whatever_else_the_text_holds() {
    let text = "\
# TYPE latency histogram
latency_bucket{le=\"0.5\"} 3
xr_thermal_margin_pct 12.25
# TYPE queue histogram
queue_bucket{le=\"10\"} 1
queue_bucket{le=\"+Inf\"} 2
# TYPE wait summary
wait{quantile=\"0.5\"} 4
xr_renewable_share_pct 48
latency_bucket{le=\"+Inf\"} 4
xr_thermal_margin_pct 99
";
    let expected = SegmentLoad {
        segment_id: segment(),
        current_flops: Amount::zero(),
        energy_rate_kw: Amount::zero(),
        thermal_margin_pct: Amount { micros: 12_250_000 },
        renewable_share_pct: Amount::from_units(48),
    };
    for _ in 0..8 {
        assert_eq!(segment_load_from_text(&segment(), text), Ok(expected.clone()));
        let scalars: Vec<MetricSample> = samples_of(&parse(text))
            .into_iter()
            .filter(|s| s.value.scalar_bits().is_some())
            .collect();
        assert_eq!(
            scalars,
            vec![
                sample("xr_thermal_margin_pct", MetricValue::Untyped(12.25f64.to_bits())),
                sample("xr_renewable_share_pct", MetricValue::Untyped(48.0f64.to_bits())),
                sample("xr_thermal_margin_pct", MetricValue::Untyped(99.0f64.to_bits())),
            ]
        );
        assert_eq!(segment_load_from_samples(&segment(), &scalars), expected);
    }
}
