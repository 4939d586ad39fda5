//! One sample of the sensor, split into its named quantities.

use vstd::prelude::*;

verus! {

/// Number of values in the series that one read of the sensor returns.
pub const SERIES_LEN: usize = 10;

/// Mass concentration in µg/m³, one IEEE-754 single-precision bit pattern per
/// particle-size class.
#[derive(Clone, Copy, Debug, PartialEq, Eq, Structural)]
pub struct MassConcentration {
    /// PM1.0
    pub pm1: u32,
    /// PM2.5
    pub pm25: u32,
    /// PM4
    pub pm4: u32,
    /// PM10
    pub pm10: u32,
}

/// Number concentration in 1/cm³, one IEEE-754 single-precision bit pattern per
/// particle-size class.
#[derive(Clone, Copy, Debug, PartialEq, Eq, Structural)]
pub struct NumberConcentration {
    /// PM0.5
    pub pm05: u32,
    /// PM1.0
    pub pm1: u32,
    /// PM2.5
    pub pm25: u32,
    /// PM4
    pub pm4: u32,
    /// PM10
    pub pm10: u32,
}

/// A complete reading. It is only ever built and replaced as a whole.
#[derive(Clone, Copy, Debug, PartialEq, Eq, Structural)]
pub struct Measurement {
    pub mass: MassConcentration,
    pub number: NumberConcentration,
    /// Typical particle size in µm, as an IEEE-754 single-precision bit pattern.
    pub typical_particle_size: u32,
}

/// The reading that a ten-value series stands for. The sensor sends, in this
/// order: mass PM1.0, PM2.5, PM4, PM10; number PM0.5, PM1.0, PM2.5, PM4, PM10;
/// typical particle size.
pub open spec fn measurement_of(series: Seq<u32>) -> Measurement
    recommends
        series.len() == SERIES_LEN,
{
    Measurement {
        mass: MassConcentration {
            pm1: series[0],
            pm25: series[1],
            pm4: series[2],
            pm10: series[3],
        },
        number: NumberConcentration {
            pm05: series[4],
            pm1: series[5],
            pm25: series[6],
            pm4: series[7],
            pm10: series[8],
        },
        typical_particle_size: series[9],
    }
}

/// The ten values of a reading, in the sensor's order.
pub open spec fn series_of(m: Measurement) -> Seq<u32> {
    seq![
        m.mass.pm1,
        m.mass.pm25,
        m.mass.pm4,
        m.mass.pm10,
        m.number.pm05,
        m.number.pm1,
        m.number.pm25,
        m.number.pm4,
        m.number.pm10,
        m.typical_particle_size,
    ]
}

impl Measurement {
    /// Names the ten values of a series read from the sensor.
    pub fn from_array(arr: [u32; 10]) -> (m: Measurement)
        ensures
            m == measurement_of(arr@),
    {
        Measurement {
            mass: MassConcentration { pm1: arr[0], pm25: arr[1], pm4: arr[2], pm10: arr[3] },
            number: NumberConcentration {
                pm05: arr[4],
                pm1: arr[5],
                pm25: arr[6],
                pm4: arr[7],
                pm10: arr[8],
            },
            typical_particle_size: arr[9],
        }
    }
}

/// Naming the values of a series loses nothing and moves nothing: every value
/// of the series is found again at its own position in the reading.
pub proof fn lemma_series_is_kept(series: Seq<u32>)
    requires
        series.len() == SERIES_LEN,
    ensures
        series_of(measurement_of(series)) == series,
{
    assert(series_of(measurement_of(series)) =~= series);
}

} // verus!
