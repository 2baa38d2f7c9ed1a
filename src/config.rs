use vstd::prelude::*;

verus! {

/// Settings applied to the radar.
#[derive(Debug)]
pub struct Config {
    pub tracking: TargetTrackingMode,
    pub bluetooth_enabled: bool,
    pub filtering_mode: FilteringMode,
}

/// Whether the radar tracks one target or up to three.
#[derive(Debug, Clone, Copy, PartialEq, Eq, Structural)]
pub enum TargetTrackingMode {
    Single,
    Multiple,
}

impl Default for TargetTrackingMode {
    fn default() -> (r: TargetTrackingMode)
        ensures
            r == TargetTrackingMode::Multiple,
    {
        TargetTrackingMode::Multiple
    }
}

/// Zone filtering applied by the radar.
#[derive(Debug)]
pub enum FilteringMode {
    /// No filtering
    Disabled,
    /// Filter out targets inside the regions.
    Inside(heapless::Vec<FilteredRegion, 3>),
    /// Filter out targets outside the regions.
    Outside(heapless::Vec<FilteredRegion, 3>),
}

impl Default for FilteringMode {
    fn default() -> (r: FilteringMode)
        ensures
            r is Disabled,
    {
        FilteringMode::Disabled
    }
}

impl Default for Config {
    fn default() -> (r: Config)
        ensures
            r.tracking == TargetTrackingMode::Multiple,
            !r.bluetooth_enabled,
            r.filtering_mode is Disabled,
    {
        Config {
            tracking: TargetTrackingMode::Multiple,
            bluetooth_enabled: false,
            filtering_mode: FilteringMode::Disabled,
        }
    }
}

/// A radar region, defined by two diagonal vertices in mm, with the sensor at the origin.
#[derive(Debug, Clone, Copy, PartialEq, Eq, Structural)]
pub struct FilteredRegion {
    x_start: i16,
    y_start: i16,
    x_end: i16,
    y_end: i16,
}

} // verus!
