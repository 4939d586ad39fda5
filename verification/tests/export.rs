use sps30_exporter::exporter::{export_measurement, Metric, Sample, SampleValue, SizeClass};
use sps30_exporter::measurement::{MassConcentration, Measurement, NumberConcentration};
use sps30_exporter::reader::{Event, ReadOutcome, ReaderState};
use sps30_exporter::state::SharedState;

const SERIES: [f32; 10] = [1.1, 2.2, 3.3, 4.4, 5.5, 6.6, 7.7, 8.8, 9.9, 10.1];

fn bits(values: [f32; 10]) -> [u32; 10] {
    values.map(f32::to_bits)
}

fn reading(metric: Metric, variant: Option<SizeClass>, value: f32) -> Sample {
    Sample { metric, variant, value: SampleValue::Reading(value.to_bits()) }
}

fn count(metric: Metric, value: usize) -> Sample {
    Sample { metric, variant: None, value: SampleValue::Count(value) }
}

fn expected_readings() -> Vec<Sample> {
    vec![
        reading(Metric::MassConcentration, Some(SizeClass::Pm1), 1.1),
        reading(Metric::MassConcentration, Some(SizeClass::Pm25), 2.2),
        reading(Metric::MassConcentration, Some(SizeClass::Pm4), 3.3),
        reading(Metric::MassConcentration, Some(SizeClass::Pm10), 4.4),
        reading(Metric::NumberConcentration, Some(SizeClass::Pm05), 5.5),
        reading(Metric::NumberConcentration, Some(SizeClass::Pm1), 6.6),
        reading(Metric::NumberConcentration, Some(SizeClass::Pm25), 7.7),
        reading(Metric::NumberConcentration, Some(SizeClass::Pm4), 8.8),
        reading(Metric::NumberConcentration, Some(SizeClass::Pm10), 9.9),
        reading(Metric::TypicalParticleSize, None, 10.1),
    ]
}

#[test]
fn ten_value_series_is_named_in_order() {
    let m = Measurement::from_array(bits(SERIES));
    assert_eq!(f32::from_bits(m.mass.pm1), 1.1);
    assert_eq!(f32::from_bits(m.mass.pm25), 2.2);
    assert_eq!(f32::from_bits(m.mass.pm4), 3.3);
    assert_eq!(f32::from_bits(m.mass.pm10), 4.4);
    assert_eq!(f32::from_bits(m.number.pm05), 5.5);
    assert_eq!(f32::from_bits(m.number.pm1), 6.6);
    assert_eq!(f32::from_bits(m.number.pm25), 7.7);
    assert_eq!(f32::from_bits(m.number.pm4), 8.8);
    assert_eq!(f32::from_bits(m.number.pm10), 9.9);
    assert_eq!(f32::from_bits(m.typical_particle_size), 10.1);
    assert_eq!(
        m,
        Measurement {
            mass: MassConcentration {
                pm1: 1.1f32.to_bits(),
                pm25: 2.2f32.to_bits(),
                pm4: 3.3f32.to_bits(),
                pm10: 4.4f32.to_bits(),
            },
            number: NumberConcentration {
                pm05: 5.5f32.to_bits(),
                pm1: 6.6f32.to_bits(),
                pm25: 7.7f32.to_bits(),
                pm4: 8.8f32.to_bits(),
                pm10: 9.9f32.to_bits(),
            },
            typical_particle_size: 10.1f32.to_bits(),
        }
    );
}

#[test]
fn polled_series_is_what_the_cache_serves() {
    let mut shared = SharedState::new();
    let read = ReaderState::Polling.step(Event::Read(ReadOutcome::Data(bits(SERIES))));
    shared.apply(read.effect);
    let commit = read.state.step(Event::Completed);
    shared.apply(commit.effect);
    let m = shared.latest().unwrap();
    assert_eq!(
        [m.mass.pm1, m.mass.pm25, m.mass.pm4, m.mass.pm10].map(f32::from_bits),
        [1.1, 2.2, 3.3, 4.4]
    );
    assert_eq!(
        [m.number.pm05, m.number.pm1, m.number.pm25, m.number.pm4, m.number.pm10]
            .map(f32::from_bits),
        [5.5, 6.6, 7.7, 8.8, 9.9]
    );
    assert_eq!(f32::from_bits(m.typical_particle_size), 10.1);
}

#[test]
fn fresh_state_exports_two_zero_counters() {
    let shared = SharedState::new();
    assert_eq!(shared.latest(), None);
    assert_eq!(shared.error_count(), 0);
    assert_eq!(shared.fatal_error_count(), 0);
    let samples =
        export_measurement(shared.latest(), shared.error_count(), shared.fatal_error_count());
    assert_eq!(
        samples,
        vec![count(Metric::ErrorCount, 0), count(Metric::FatalErrorCount, 0)]
    );
}

#[test]
fn counters_are_exported_without_a_reading() {
    let samples = export_measurement(None, 7, 2);
    assert_eq!(
        samples,
        vec![count(Metric::ErrorCount, 7), count(Metric::FatalErrorCount, 2)]
    );
}

#[test]
fn reading_is_exported_before_the_counters() {
    let m = Measurement::from_array(bits(SERIES));
    let samples = export_measurement(Some(m), 4, 1);
    let mut expected = expected_readings();
    expected.push(count(Metric::ErrorCount, 4));
    expected.push(count(Metric::FatalErrorCount, 1));
    assert_eq!(samples.len(), 12);
    assert_eq!(samples, expected);
}

#[test]
fn three_read_errors_then_a_success() {
    let mut shared = SharedState::new();
    let mut state = ReaderState::Polling;
    let events = [
        Event::Read(ReadOutcome::Failed),
        Event::Observed { terminate: false, elapsed_nanos: 2_500_000_000 },
        Event::Read(ReadOutcome::Failed),
        Event::Observed { terminate: false, elapsed_nanos: 2_500_000_000 },
        Event::Read(ReadOutcome::Failed),
        Event::Observed { terminate: false, elapsed_nanos: 2_500_000_000 },
        Event::Read(ReadOutcome::Data(bits(SERIES))),
        Event::Completed,
    ];
    for event in events {
        let step = state.step(event);
        shared.apply(step.effect);
        state = step.state;
    }
    assert_eq!(shared.error_count(), 3);
    let samples =
        export_measurement(shared.latest(), shared.error_count(), shared.fatal_error_count());
    let mut expected = expected_readings();
    expected.push(count(Metric::ErrorCount, 3));
    expected.push(count(Metric::FatalErrorCount, 0));
    assert_eq!(samples, expected);
    assert_eq!(samples[10].metric.name(), "sps30_error_count");
    assert_eq!(samples[10].value, SampleValue::Count(3));
}

#[test]
fn metrics_have_their_names_and_units() {
    assert_eq!(Metric::MassConcentration.name(), "sps30_mass_concentration");
    assert_eq!(Metric::NumberConcentration.name(), "sps30_number_concentration");
    assert_eq!(Metric::TypicalParticleSize.name(), "sps30_typical_particle_size");
    assert_eq!(Metric::ErrorCount.name(), "sps30_error_count");
    assert_eq!(Metric::FatalErrorCount.name(), "sps30_fatal_error_count");
    assert_eq!(Metric::MassConcentration.unit(), Some("μg/m3"));
    assert_eq!(Metric::NumberConcentration.unit(), Some("1/cm3"));
    assert_eq!(Metric::TypicalParticleSize.unit(), Some("μm"));
    assert_eq!(Metric::ErrorCount.unit(), None);
    assert_eq!(Metric::FatalErrorCount.unit(), None);
}

#[test]
fn size_classes_have_their_labels() {
    assert_eq!(SizeClass::Pm05.label(), "PM0.5");
    assert_eq!(SizeClass::Pm1.label(), "PM1.0");
    assert_eq!(SizeClass::Pm25.label(), "PM2.5");
    assert_eq!(SizeClass::Pm4.label(), "PM4");
    assert_eq!(SizeClass::Pm10.label(), "PM10");
}

#[test]
fn store_replaces_every_value_at_once() {
    let a = Measurement::from_array([1, 2, 3, 4, 5, 6, 7, 8, 9, 10]);
    let b = Measurement::from_array([11, 12, 13, 14, 15, 16, 17, 18, 19, 20]);
    let mut shared = SharedState::new();
    shared.store(a);
    shared.count_error();
    shared.count_fatal_error();
    shared.store(b);
    assert_eq!(shared.latest(), Some(b));
    assert_eq!(shared.error_count(), 1);
    assert_eq!(shared.fatal_error_count(), 1);
}
