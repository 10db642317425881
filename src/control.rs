use vstd::prelude::*;
use crate::sensors::{ParticleMatter, Rain};

verus! {

/// The PM2.5 and PM10 levels above which the shutter closes, until the
/// controlling server sends others.
pub const DEFAULT_THRESHOLD: u32 = 100;

/// What an update did to the shutter.
#[derive(Clone, Copy, Debug, PartialEq, Eq, Structural)]
pub enum ShutterChange {
    Closing,
    Opening,
    Unchanged,
}

/// Whether the readings call for a closed shutter: rain, or a level above
/// its threshold.
pub open spec fn must_close(rain: Rain, pm: ParticleMatter, pm25_threshold: u32, pm10_threshold: u32) -> bool {
    rain.is_raining || pm.pm_25_level as u32 > pm25_threshold || pm.pm_10_level as u32
        > pm10_threshold
}

/// The shutter and the thresholds that decide it.
#[derive(Clone, Copy, Debug, PartialEq, Eq, Structural)]
pub struct ShutterControl {
    pub pm25_threshold: u32,
    pub pm10_threshold: u32,
    pub closed: bool,
}

impl ShutterControl {
    /// An open shutter with the default thresholds.
    pub fn new() -> (c: ShutterControl)
        ensures
            c.pm25_threshold == DEFAULT_THRESHOLD,
            c.pm10_threshold == DEFAULT_THRESHOLD,
            !c.closed,
    {
        ShutterControl {
            pm25_threshold: DEFAULT_THRESHOLD,
            pm10_threshold: DEFAULT_THRESHOLD,
            closed: false,
        }
    }

    /// Takes the thresholds that the server sent.
    pub fn set_thresholds(&mut self, pm25_threshold: u32, pm10_threshold: u32)
        ensures
            final(self).pm25_threshold == pm25_threshold,
            final(self).pm10_threshold == pm10_threshold,
            final(self).closed == old(self).closed,
    {
        self.pm25_threshold = pm25_threshold;
        self.pm10_threshold = pm10_threshold;
    }

    /// Closes or opens the shutter as the readings call for, and says what
    /// changed.
    pub fn update(&mut self, rain: Rain, pm: ParticleMatter) -> (change: ShutterChange)
        ensures
            final(self).closed == must_close(rain, pm, old(self).pm25_threshold, old(self).pm10_threshold),
            final(self).pm25_threshold == old(self).pm25_threshold,
            final(self).pm10_threshold == old(self).pm10_threshold,
            change == if final(self).closed == old(self).closed {
                ShutterChange::Unchanged
            } else if final(self).closed {
                ShutterChange::Closing
            } else {
                ShutterChange::Opening
            },
    {
        if rain.is_raining || (pm.pm_25_level as u32) > self.pm25_threshold
            || (pm.pm_10_level as u32) > self.pm10_threshold {
            if !self.closed {
                self.closed = true;
                return ShutterChange::Closing;
            }
        } else if self.closed {
            self.closed = false;
            return ShutterChange::Opening;
        }
        ShutterChange::Unchanged
    }
}

} // verus!
