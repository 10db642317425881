use vstd::prelude::*;
use rand::Rng;

verus! {

/// A particulate matter reading, in micrograms per cubic metre.
#[derive(Clone, Copy, Debug, PartialEq, Eq, Structural)]
pub struct ParticleMatter {
    pub pm_25_level: u16,
    pub pm_10_level: u16,
}

/// A source of particulate matter readings.
pub trait ParticleMatterSensor: Sized {
    fn new() -> Self;

    fn read_value(&mut self) -> Option<ParticleMatter>;
}

/// A precipitation reading.
#[derive(Clone, Copy, Debug, PartialEq, Eq, Structural)]
pub struct Rain {
    pub is_raining: bool,
}

/// A source of precipitation readings.
pub trait RainSensor: Sized {
    fn new() -> Self;

    fn read_value(&mut self) -> Option<Rain>;
}

/// Relies on rand::thread_rng and Rng::gen_range: a uniform draw from
/// `0..bound`, which is not empty.
#[verifier::external_body]
fn random_below(bound: u16) -> (r: u16)
    requires
        bound > 0,
    ensures
        r < bound,
{
    rand::thread_rng().gen_range(0..bound)
}

/// The bound, exclusive, of simulated particulate matter levels.
pub const SIMULATED_PM_BOUND: u16 = 150;

/// Out of ten draws, the ones from this value up simulate rain.
pub const SIMULATED_RAIN_FROM: u16 = 7;

/// The length of the answer frame to a read of measured values.
pub const MEASUREMENT_FRAME_LEN: usize = 27;

/// A level as the measurement frame encodes it: the high byte shifted by
/// one, combined bitwise with the low byte.
pub open spec fn frame_level(high: u8, low: u8) -> u16 {
    ((high as u16) << 1u16) | (low as u16)
}

/// Decodes the answer to a read of measured values: a frame shorter than
/// the full answer gives nothing; otherwise the PM2.5 level stands in bytes
/// 7 and 8 and the PM10 level in bytes 11 and 12.
pub fn decode_measurement(frame: &[u8]) -> (r: Option<ParticleMatter>)
    ensures
        frame@.len() < MEASUREMENT_FRAME_LEN ==> r is None,
        frame@.len() >= MEASUREMENT_FRAME_LEN ==> r == Some(
            ParticleMatter {
                pm_25_level: frame_level(frame@[7], frame@[8]),
                pm_10_level: frame_level(frame@[11], frame@[12]),
            },
        ),
{
    if frame.len() < MEASUREMENT_FRAME_LEN {
        return None;
    }
    let pm25: u16 = ((frame[7] as u16) << 1u16) | (frame[8] as u16);
    let pm10: u16 = ((frame[11] as u16) << 1u16) | (frame[12] as u16);
    Some(ParticleMatter { pm_25_level: pm25, pm_10_level: pm10 })
}

/// Produces random particulate matter levels.
pub struct ParticleMatterSensorSimulator {}

impl ParticleMatterSensorSimulator {
    /// One simulated reading: both levels below `SIMULATED_PM_BOUND`.
    pub fn simulate() -> (r: ParticleMatter)
        ensures
            r.pm_25_level < SIMULATED_PM_BOUND,
            r.pm_10_level < SIMULATED_PM_BOUND,
    {
        let pm_25_level = random_below(SIMULATED_PM_BOUND);
        let pm_10_level = random_below(SIMULATED_PM_BOUND);
        ParticleMatter { pm_25_level, pm_10_level }
    }
}

impl ParticleMatterSensor for ParticleMatterSensorSimulator {
    fn new() -> Self {
        ParticleMatterSensorSimulator {  }
    }

    fn read_value(&mut self) -> (r: Option<ParticleMatter>)
        ensures
            r is Some,
            r->0.pm_25_level < SIMULATED_PM_BOUND,
            r->0.pm_10_level < SIMULATED_PM_BOUND,
    {
        Some(ParticleMatterSensorSimulator::simulate())
    }
}

/// Produces random precipitation readings, rain three times in ten.
pub struct RainSensorSimulator {}

impl RainSensorSimulator {
    /// Whether a draw out of ten simulates rain.
    pub fn rain_from_draw(draw: u16) -> (r: Rain)
        ensures
            r.is_raining == (draw >= SIMULATED_RAIN_FROM),
    {
        Rain { is_raining: draw >= SIMULATED_RAIN_FROM }
    }
}

impl RainSensor for RainSensorSimulator {
    fn new() -> Self {
        RainSensorSimulator {  }
    }

    fn read_value(&mut self) -> (r: Option<Rain>)
        ensures
            r is Some,
    {
        Some(RainSensorSimulator::rain_from_draw(random_below(10)))
    }
}

} // verus!
