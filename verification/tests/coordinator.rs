use monty::coordinator::{Coordinator, MetricSnapshot, SAMPLE_INTERVAL_MS};

fn snapshot(usage: i64, freq: i64, temp: i64, watts: i64) -> MetricSnapshot {
    MetricSnapshot {
        cpu_usage_percent: usage,
        cpu_frequency_mhz: freq,
        package_temperature: temp,
        power_watts: watts,
    }
}

#[test]
fn seed_stores_hold_initial_readings() {
    let c = Coordinator::new(0, 10, 2000, 50);
    assert_eq!(c.usage().len(), 1);
    assert_eq!(c.usage().samples()[0].value, 10);
    assert_eq!(c.frequency().samples()[0].value, 2000);
    assert_eq!(c.temperature().samples()[0].value, 50);
    // No power delta exists before the sampler's second reading.
    assert_eq!(c.watts().samples()[0].value, 0);
    assert_eq!(c.last_sample_ms(), 0);
}

#[test]
fn debounced_ticks_push_exactly_once() {
    let mut c = Coordinator::new(0, 10, 2000, 50);
    assert!(c.tick(600, snapshot(20, 3000, 60, 15)));
    // A second invocation within the interval of the first sample is a no-op.
    assert!(!c.tick(700, snapshot(99, 9999, 99, 99)));
    assert_eq!(c.usage().len(), 2);
    assert_eq!(c.frequency().len(), 2);
    assert_eq!(c.temperature().len(), 2);
    assert_eq!(c.watts().len(), 2);
    assert_eq!(c.usage().samples()[0].value, 20);
    assert_eq!(c.last_sample_ms(), 600);
}

#[test]
fn tick_at_exact_interval_samples_again() {
    let mut c = Coordinator::new(0, 10, 2000, 50);
    assert!(c.tick(600, snapshot(20, 3000, 60, 15)));
    assert!(c.tick(600 + SAMPLE_INTERVAL_MS, snapshot(30, 3100, 61, 16)));
    assert_eq!(c.usage().len(), 3);
    assert_eq!(c.watts().samples()[0].value, 16);
}

#[test]
fn early_tick_is_a_complete_no_op() {
    let mut c = Coordinator::new(1000, 10, 2000, 50);
    assert!(!c.tick(1100, snapshot(20, 3000, 60, 15)));
    assert_eq!(c.last_sample_ms(), 1000);
    assert_eq!(c.usage().len(), 1);
    assert_eq!(c.usage().samples()[0].value, 10);
}

#[test]
fn sampling_tick_aligns_all_timestamps() {
    let mut c = Coordinator::new(0, 10, 2000, 50);
    assert!(c.tick(900, snapshot(20, 3000, 60, 15)));
    assert_eq!(c.usage().samples()[0].timestamp_ms, 900);
    assert_eq!(c.frequency().samples()[0].timestamp_ms, 900);
    assert_eq!(c.temperature().samples()[0].timestamp_ms, 900);
    assert_eq!(c.watts().samples()[0].timestamp_ms, 900);
}

#[test]
fn should_sample_reports_debounce_state() {
    let c = Coordinator::new(1000, 10, 2000, 50);
    assert!(!c.should_sample(1499));
    assert!(c.should_sample(1500));
    assert!(c.should_sample(2000));
}
