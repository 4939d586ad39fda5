//! The metric series that the agent offers: which ones, in which order, under
//! which names and labels. Turning a series into a line of text is left to the
//! caller.

use vstd::prelude::*;
use crate::measurement::Measurement;

verus! {

/// The metrics of the agent.
#[derive(Clone, Copy, Debug, PartialEq, Eq, Structural)]
pub enum Metric {
    MassConcentration,
    NumberConcentration,
    TypicalParticleSize,
    ErrorCount,
    FatalErrorCount,
}

/// The particle-size classes that label a concentration.
#[derive(Clone, Copy, Debug, PartialEq, Eq, Structural)]
pub enum SizeClass {
    Pm05,
    Pm1,
    Pm25,
    Pm4,
    Pm10,
}

/// The number of a series.
#[derive(Clone, Copy, Debug, PartialEq, Eq, Structural)]
pub enum SampleValue {
    /// A measured quantity, as its IEEE-754 single-precision bit pattern.
    Reading(u32),
    /// A counter.
    Count(usize),
}

/// One series: a metric, the size class that labels it where it has one, and
/// its number.
#[derive(Clone, Copy, Debug, PartialEq, Eq)]
pub struct Sample {
    pub metric: Metric,
    pub variant: Option<SizeClass>,
    pub value: SampleValue,
}

/// The name under which a metric is exported.
pub open spec fn metric_name(metric: Metric) -> Seq<char> {
    match metric {
        Metric::MassConcentration => "sps30_mass_concentration"@,
        Metric::NumberConcentration => "sps30_number_concentration"@,
        Metric::TypicalParticleSize => "sps30_typical_particle_size"@,
        Metric::ErrorCount => "sps30_error_count"@,
        Metric::FatalErrorCount => "sps30_fatal_error_count"@,
    }
}

/// The value of the `unit` label of a metric; the counters have none.
pub open spec fn metric_unit(metric: Metric) -> Option<Seq<char>> {
    match metric {
        Metric::MassConcentration => Some("μg/m3"@),
        Metric::NumberConcentration => Some("1/cm3"@),
        Metric::TypicalParticleSize => Some("μm"@),
        Metric::ErrorCount | Metric::FatalErrorCount => None,
    }
}

/// The value of the `variant` label of a size class.
pub open spec fn size_label(class: SizeClass) -> Seq<char> {
    match class {
        SizeClass::Pm05 => "PM0.5"@,
        SizeClass::Pm1 => "PM1.0"@,
        SizeClass::Pm25 => "PM2.5"@,
        SizeClass::Pm4 => "PM4"@,
        SizeClass::Pm10 => "PM10"@,
    }
}

/// A concentration series.
pub open spec fn concentration(metric: Metric, class: SizeClass, bits: u32) -> Sample {
    Sample { metric, variant: Some(class), value: SampleValue::Reading(bits) }
}

/// A counter series.
pub open spec fn counter(metric: Metric, count: usize) -> Sample {
    Sample { metric, variant: None, value: SampleValue::Count(count) }
}

/// The ten series of a reading: four of mass concentration, five of number
/// concentration, one of typical particle size.
pub open spec fn reading_samples(m: Measurement) -> Seq<Sample> {
    seq![
        concentration(Metric::MassConcentration, SizeClass::Pm1, m.mass.pm1),
        concentration(Metric::MassConcentration, SizeClass::Pm25, m.mass.pm25),
        concentration(Metric::MassConcentration, SizeClass::Pm4, m.mass.pm4),
        concentration(Metric::MassConcentration, SizeClass::Pm10, m.mass.pm10),
        concentration(Metric::NumberConcentration, SizeClass::Pm05, m.number.pm05),
        concentration(Metric::NumberConcentration, SizeClass::Pm1, m.number.pm1),
        concentration(Metric::NumberConcentration, SizeClass::Pm25, m.number.pm25),
        concentration(Metric::NumberConcentration, SizeClass::Pm4, m.number.pm4),
        concentration(Metric::NumberConcentration, SizeClass::Pm10, m.number.pm10),
        Sample {
            metric: Metric::TypicalParticleSize,
            variant: None,
            value: SampleValue::Reading(m.typical_particle_size),
        },
    ]
}

/// The two counter series, which are always there.
pub open spec fn counter_samples(error_count: usize, fatal_error_count: usize) -> Seq<Sample> {
    seq![
        counter(Metric::ErrorCount, error_count),
        counter(Metric::FatalErrorCount, fatal_error_count),
    ]
}

/// Everything that is exported: the series of the latest reading, if there is
/// one, then the two counters.
pub open spec fn exposition(
    measurement: Option<Measurement>,
    error_count: usize,
    fatal_error_count: usize,
) -> Seq<Sample> {
    match measurement {
        Some(m) => reading_samples(m) + counter_samples(error_count, fatal_error_count),
        None => counter_samples(error_count, fatal_error_count),
    }
}

impl Metric {
    /// The name under which the metric is exported.
    pub fn name(self) -> (s: &'static str)
        ensures
            s@ == metric_name(self),
    {
        match self {
            Metric::MassConcentration => "sps30_mass_concentration",
            Metric::NumberConcentration => "sps30_number_concentration",
            Metric::TypicalParticleSize => "sps30_typical_particle_size",
            Metric::ErrorCount => "sps30_error_count",
            Metric::FatalErrorCount => "sps30_fatal_error_count",
        }
    }

    /// The value of the metric's `unit` label, if it has one.
    pub fn unit(self) -> (u: Option<&'static str>)
        ensures
            u.is_some() == metric_unit(self).is_some(),
            u.is_some() ==> u.unwrap()@ == metric_unit(self).unwrap(),
    {
        match self {
            Metric::MassConcentration => Some("μg/m3"),
            Metric::NumberConcentration => Some("1/cm3"),
            Metric::TypicalParticleSize => Some("μm"),
            Metric::ErrorCount => None,
            Metric::FatalErrorCount => None,
        }
    }
}

impl SizeClass {
    /// The value of the `variant` label of the size class.
    pub fn label(self) -> (s: &'static str)
        ensures
            s@ == size_label(self),
    {
        match self {
            SizeClass::Pm05 => "PM0.5",
            SizeClass::Pm1 => "PM1.0",
            SizeClass::Pm25 => "PM2.5",
            SizeClass::Pm4 => "PM4",
            SizeClass::Pm10 => "PM10",
        }
    }
}

/// A concentration series.
fn concentration_sample(metric: Metric, class: SizeClass, bits: u32) -> (s: Sample)
    ensures
        s == concentration(metric, class, bits),
{
    Sample { metric, variant: Some(class), value: SampleValue::Reading(bits) }
}

/// The series to export for the latest reading and the two counters, in the
/// order in which they are emitted.
pub fn export_measurement(
    measurement: Option<Measurement>,
    error_count: usize,
    fatal_error_count: usize,
) -> (samples: Vec<Sample>)
    ensures
        samples@ == exposition(measurement, error_count, fatal_error_count),
{
    let mut samples: Vec<Sample> = Vec::new();
    match measurement {
        Some(r) => {
            let mass = Metric::MassConcentration;
            let number = Metric::NumberConcentration;
            samples.push(concentration_sample(mass, SizeClass::Pm1, r.mass.pm1));
            samples.push(concentration_sample(mass, SizeClass::Pm25, r.mass.pm25));
            samples.push(concentration_sample(mass, SizeClass::Pm4, r.mass.pm4));
            samples.push(concentration_sample(mass, SizeClass::Pm10, r.mass.pm10));
            samples.push(concentration_sample(number, SizeClass::Pm05, r.number.pm05));
            samples.push(concentration_sample(number, SizeClass::Pm1, r.number.pm1));
            samples.push(concentration_sample(number, SizeClass::Pm25, r.number.pm25));
            samples.push(concentration_sample(number, SizeClass::Pm4, r.number.pm4));
            samples.push(concentration_sample(number, SizeClass::Pm10, r.number.pm10));
            samples.push(
                Sample {
                    metric: Metric::TypicalParticleSize,
                    variant: None,
                    value: SampleValue::Reading(r.typical_particle_size),
                },
            );
        },
        None => {},
    }
    samples.push(
        Sample { metric: Metric::ErrorCount, variant: None, value: SampleValue::Count(error_count) },
    );
    samples.push(
        Sample {
            metric: Metric::FatalErrorCount,
            variant: None,
            value: SampleValue::Count(fatal_error_count),
        },
    );
    assert(samples@ =~= exposition(measurement, error_count, fatal_error_count));
    samples
}

} // verus!
